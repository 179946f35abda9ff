//! The present-weather codes of a synoptic report, 00 to 99, as named conditions.

use vstd::prelude::*;
use crate::key::CacheKey;

verus! {

/// What a forecast request may choose: for how many days.
#[derive(Debug, Clone, Copy, PartialEq, Eq, Hash)]
pub struct ForecastParams {
    pub days: Option<u16>,
}

impl ForecastParams {
    /// The number of days to ask the weather source for: the request's own choice,
    /// else what is configured.
    pub fn days_or(&self, configured: Option<u16>) -> (days: Option<u16>)
        ensures
            days == (if self.days.is_some() {
                self.days
            } else {
                configured
            }),
    {
        match self.days {
            Some(days) => Some(days),
            None => configured,
        }
    }
}

impl Default for ForecastParams {
    /// A request that leaves the number of days open.
    fn default() -> (made: Self)
        ensures
            made.days.is_none(),
    {
        ForecastParams { days: None }
    }
}

impl View for ForecastParams {
    type V = ForecastParams;

    open spec fn view(&self) -> ForecastParams {
        *self
    }
}

impl CacheKey for ForecastParams {
    fn same(&self, other: &Self) -> (same: bool) {
        match (self.days, other.days) {
            (Some(mine), Some(theirs)) => mine == theirs,
            (None, None) => true,
            _ => false,
        }
    }

    fn duplicate(&self) -> (copy: Self) {
        ForecastParams { days: self.days }
    }
}

/// The weather at the time of observation. Each condition stands for one code figure
/// from 0 to 99; the conditions are declared in the order of their figures.
#[derive(Debug, Clone, Copy, PartialEq, Eq)]
pub enum PresentWeather {
    // 00-19: No precipitation at the station at the time of observation
    /// 00: Cloud development not observed or not observable.
    CloudDevelopmentNotObserved,
    /// 01: Clouds generally dissolving or becoming less developed.
    CloudsDissolving,
    /// 02: State of sky on the whole unchanged.
    SkyStateUnchanged,
    /// 03: Clouds generally forming or developing.
    CloudsForming,
    /// 04: Visibility reduced by smoke, e.g. veldt/forest fires, industrial smoke or volcanic ashes.
    VisibilityReducedBySmoke,
    /// 05: Haze.
    Haze,
    /// 06: Widespread dust in suspension in the air, not raised by wind at or near the station.
    WidespreadDustSuspended,
    /// 07: Dust or sand raised by wind at or near the station, but no well-developed dust whirl(s) or sand whirl(s), and no duststorm or sandstorm.
    DustOrSandRaisedByWind,
    /// 08: Well developed dust whirl(s) or sand whirl(s) seen at or near the station during preceding hour or at time of observation, but no duststorm or sandstorm.
    DustOrSandWhirls,
    /// 09: Duststorm or sandstorm within sight at the time of observation, or at the station during the preceding hour.
    DuststormOrSandstorm,
    /// 10: Mist.
    Mist,
    /// 11: Patches shallow fog or ice fog at the station, whether on land or sea, not deeper than about 2 m on land or 10 m at sea.
    PatchesShallowFogOrIceFog,
    /// 12: More or less continuous (shallow) fog or ice fog.
    ContinuousFogOrIceFog,
    /// 13: Lightning visible, no thunder heard.
    LightningVisibleNoThunder,
    /// 14: Precipitation within sight, not reaching the ground or surface of the sea.
    PrecipitationInSightNotReachingGround,
    /// 15: Precipitation within sight, reaching the ground or the surface of the sea, but distant (>5 km from station).
    PrecipitationInSightGroundDistant,
    /// 16: Precipitation within sight, reaching the ground or the surface of the sea, near to, but not at the station.
    PrecipitationInSightNearStation,
    /// 17: Thunderstorm, but no precipitation at time of observation.
    ThunderstormNoPrecipitation,
    /// 18: Squalls at or within sight of station during the preceding hour or at time of observation.
    Squalls,
    /// 19: Funnel cloud(s) - Tornado cloud or water-spout.
    FunnelClouds,
    // 20-29: Precipitation, fog or thunderstorm during the preceding hour, not at the time of observation
    /// 20: Drizzle (not freezing) or snow grains, not falling as shower(s).
    DrizzleNotFreezing,
    /// 21: Rain (not freezing).
    RainNotFreezing,
    /// 22: Snow.
    Snow,
    /// 23: Rain and snow or ice pellets.
    RainAndSnowOrIcePellets,
    /// 24: Freezing drizzle or freezing rain.
    FreezingDrizzleOrFreezingRain,
    /// 25: Shower(s) of rain.
    ShowerOfRain,
    /// 26: Shower(s) of snow, or of rain and snow.
    ShowerOfSnowOrRainAndSnow,
    /// 27: Shower(s) of hail, or of rain and hail.
    ShowerOfHailOrRainAndHail,
    /// 28: Fog or ice fog.
    FogOrIceFog,
    /// 29: Thunderstorm (with or without precipitation).
    ThunderstormWithOrWithoutPrecipitation,
    // 30-39: Duststorm, sandstorm, drifting or blowing snow
    /// 30: Slight or moderate duststorm or sandstorm - has decreased during preceding hour.
    SlightOrModerateDuststormHasDecreased,
    /// 31: No appreciable change during preceding hour.
    DuststormNoChange,
    /// 32: Has begun or has increased during preceding hour.
    DuststormHasBegunOrIncreased,
    /// 33: Severe duststorm or sandstorm - has decreased during preceding hour.
    SevereDuststormHasDecreased,
    /// 34: No appreciable change during preceding hour.
    SevereDuststormNoChange,
    /// 35: Has begun or has increased during preceding hour.
    SevereDuststormHasBegunOrIncreased,
    /// 36: Slight or moderate blowing snow generally low (below eye level).
    SlightOrModerateBlowingSnowLow,
    /// 37: Heavy drifting snow.
    HeavyDriftingSnow,
    /// 38: Slight or moderate blowing snow generally high (above eye level).
    SlightOrModerateBlowingSnowHigh,
    /// 39: Heavy drifting snow.
    HeavyDriftingSnow2,
    // 40-49: Fog or ice fog at the time of observation
    /// 40: Fog or ice fog at a distance at the time of observation, but not at the station during the preceding hour, extending to a level above observer.
    FogOrIceFogDistance,
    /// 41: Fog or ice fog in patches.
    FogOrIceFogInPatches,
    /// 42: Fog or ice fog, sky visible has become thinner during preceding hour.
    FogOrIceFogSkyVisibleHasThinned,
    /// 43: Fog or ice fog, sky invisible.
    FogOrIceFogSkyInvisible1,
    /// 44: Fog or ice fog, sky visible, no appreciable change during preceding hour.
    FogOrIceFogSkyVisibleNoChange,
    /// 45: Fog or ice fog, sky invisible.
    FogOrIceFogSkyInvisible2,
    /// 46: Fog or ice fog, sky visible, has begun or become thicker during preceding hour.
    FogOrIceFogSkyVisibleHasThickened,
    /// 47: Fog or ice fog, sky invisible.
    FogOrIceFogSkyInvisible3,
    /// 48: Fog, depositing rime, sky visible.
    FogDepositingRimeSkyVisible,
    /// 49: Fog, depositing rime, sky invisible.
    FogDepositingRimeSkyInvisible,
    // 50-59: Drizzle
    /// 50: Drizzle, not freezing, intermittent slight at time of observation.
    DrizzleNotFreezingIntermittentSlight,
    /// 51: Drizzle, not freezing, continuous.
    DrizzleNotFreezingContinuous,
    /// 52: Drizzle, not freezing, intermittent moderate at time of observation.
    DrizzleNotFreezingIntermittentModerate,
    /// 53: Drizzle, not freezing, continuous.
    DrizzleNotFreezingContinuousHeavy,
    /// 54: Drizzle, not freezing, intermittent heavy (dense) at time of observation.
    DrizzleNotFreezingIntermittentHeavy,
    /// 55: Drizzle, not freezing, continuous (again).
    DrizzleNotFreezingContinuousAgain,
    /// 56: Drizzle, freezing, slight.
    DrizzleFreezingSlight,
    /// 57: Drizzle, freezing, moderate or heavy (dense).
    DrizzleFreezingModerateOrHeavy,
    /// 58: Drizzle and rain, slight.
    DrizzleAndRainSlight,
    /// 59: Drizzle and rain, moderate or heavy.
    DrizzleAndRainModerateOrHeavy,
    // 60-69: Rain
    /// 60: Rain, not freezing, intermittent slight at time of observation.
    RainNotFreezingIntermittentSlight,
    /// 61: Rain, not freezing, continuous.
    RainNotFreezingContinuous,
    /// 62: Rain, not freezing, intermittent moderate at time of observation.
    RainNotFreezingIntermittentModerate,
    /// 63: Rain, not freezing, continuous.
    RainNotFreezingContinuousAgain,
    /// 64: Rain, not freezing, intermittent heavy at time of observation.
    RainNotFreezingIntermittentHeavy,
    /// 65: Rain, not freezing, continuous.
    RainNotFreezingContinuousHeavy,
    /// 66: Rain, freezing, slight.
    RainFreezingSlight,
    /// 67: Rain, freezing, moderate or heavy (dense).
    RainFreezingModerateOrHeavy,
    /// 68: Rain or drizzle and snow, slight.
    RainOrDrizzleAndSnowSlight,
    /// 69: Rain or drizzle and snow, moderate or heavy.
    RainOrDrizzleAndSnowModerateOrHeavy,
    // 70-79: Solid precipitation not in showers
    /// 70: Intermittent fall of snowflakes slight at time of observation.
    SnowflakesIntermittentSlight,
    /// 71: Continuous fall of snowflakes.
    SnowflakesContinuous,
    /// 72: Intermittent fall of snowflakes moderate at time of observation.
    SnowflakesIntermittentModerate,
    /// 73: Continuous fall of snowflakes.
    SnowflakesContinuousAgain,
    /// 74: Intermittent fall of snowflakes heavy at time of observation.
    SnowflakesIntermittentHeavy,
    /// 75: Continuous fall of snowflakes.
    SnowflakesContinuousHeavy,
    /// 76: Diamond dust (with or without fog).
    DiamondDust,
    /// 77: Snow grains (with or without fog).
    SnowGrains,
    /// 78: Isolated star-like snow crystals (with or without fog).
    StarLikeSnowCrystals,
    /// 79: Ice pellets.
    IcePellets,
    // 80-99: Showers, or precipitation with a thunderstorm
    /// 80: Rain shower(s), slight.
    RainShowersSlight,
    /// 81: Rain shower(s), moderate or heavy.
    RainShowersModerateOrHeavy,
    /// 82: Rain shower(s), violent.
    RainShowerViolent,
    /// 83: Shower(s) of rain and snow mixed, slight.
    RainAndSnowMixedShowersSlight,
    /// 84: Shower(s) of rain and snow mixed, moderate or heavy.
    RainAndSnowMixedShowersModerateOrHeavy,
    /// 85: Snow shower(s), slight.
    SnowShowersSlight,
    /// 86: Snow shower(s), moderate or heavy.
    SnowShowersModerateOrHeavy,
    /// 87: Shower(s) of snow pellets or small hail, with or without rain or rain and snow mixed - slight.
    SnowPelletsOrSmallHailShowersSlight,
    /// 88: Moderate or heavy.
    SnowPelletsOrSmallHailShowersModerateOrHeavy,
    /// 89: Shower(s) of hail, with or without rain and/or snow mixed, not associated with thunder - slight.
    HailShowersWithoutThunderSlight,
    /// 90: Moderate or heavy.
    HailShowersWithoutThunderModerateOrHeavy,
    /// 91: Slight rain at time of observation; thunderstorm during the preceding hour but not at time of observation.
    SlightRainAtObservationThunderPriorHour,
    /// 92: Moderate or heavy rain at time of observation.
    ModerateOrHeavyRainAtObservation,
    /// 93: Slight snow, or rain and snow mixed or hail at time of observation.
    SlightSnowOrRainAndSnowMixedOrHailAtObservation,
    /// 94: Moderate or heavy snow, or rain and snow mixed or hail at time of observation.
    ModerateOrHeavySnowOrRainAndSnowMixedOrHail,
    /// 95: Thunderstorm, slight or moderate, without hail but with rain and/or snow at time of observation.
    ThunderstormSlightOrModerateWithoutHail,
    /// 96: Thunderstorm, slight or moderate, with hail at time of observation.
    ThunderstormSlightOrModerateWithHail,
    /// 97: Thunderstorm, heavy, without hail but with rain and/or snow at time of observation.
    ThunderstormHeavyWithoutHail,
    /// 98: Thunderstorm combined with duststorm or sandstorm at time of observation.
    ThunderstormWithDuststormOrSandstorm,
    /// 99: Thunderstorm, heavy, with hail at time of observation.
    ThunderstormHeavyWithHail,
}

impl PresentWeather {
    /// The code figure of the condition.
    pub open spec fn code(self) -> u8 {
        match self {
            PresentWeather::CloudDevelopmentNotObserved => 0,
            PresentWeather::CloudsDissolving => 1,
            PresentWeather::SkyStateUnchanged => 2,
            PresentWeather::CloudsForming => 3,
            PresentWeather::VisibilityReducedBySmoke => 4,
            PresentWeather::Haze => 5,
            PresentWeather::WidespreadDustSuspended => 6,
            PresentWeather::DustOrSandRaisedByWind => 7,
            PresentWeather::DustOrSandWhirls => 8,
            PresentWeather::DuststormOrSandstorm => 9,
            PresentWeather::Mist => 10,
            PresentWeather::PatchesShallowFogOrIceFog => 11,
            PresentWeather::ContinuousFogOrIceFog => 12,
            PresentWeather::LightningVisibleNoThunder => 13,
            PresentWeather::PrecipitationInSightNotReachingGround => 14,
            PresentWeather::PrecipitationInSightGroundDistant => 15,
            PresentWeather::PrecipitationInSightNearStation => 16,
            PresentWeather::ThunderstormNoPrecipitation => 17,
            PresentWeather::Squalls => 18,
            PresentWeather::FunnelClouds => 19,
            PresentWeather::DrizzleNotFreezing => 20,
            PresentWeather::RainNotFreezing => 21,
            PresentWeather::Snow => 22,
            PresentWeather::RainAndSnowOrIcePellets => 23,
            PresentWeather::FreezingDrizzleOrFreezingRain => 24,
            PresentWeather::ShowerOfRain => 25,
            PresentWeather::ShowerOfSnowOrRainAndSnow => 26,
            PresentWeather::ShowerOfHailOrRainAndHail => 27,
            PresentWeather::FogOrIceFog => 28,
            PresentWeather::ThunderstormWithOrWithoutPrecipitation => 29,
            PresentWeather::SlightOrModerateDuststormHasDecreased => 30,
            PresentWeather::DuststormNoChange => 31,
            PresentWeather::DuststormHasBegunOrIncreased => 32,
            PresentWeather::SevereDuststormHasDecreased => 33,
            PresentWeather::SevereDuststormNoChange => 34,
            PresentWeather::SevereDuststormHasBegunOrIncreased => 35,
            PresentWeather::SlightOrModerateBlowingSnowLow => 36,
            PresentWeather::HeavyDriftingSnow => 37,
            PresentWeather::SlightOrModerateBlowingSnowHigh => 38,
            PresentWeather::HeavyDriftingSnow2 => 39,
            PresentWeather::FogOrIceFogDistance => 40,
            PresentWeather::FogOrIceFogInPatches => 41,
            PresentWeather::FogOrIceFogSkyVisibleHasThinned => 42,
            PresentWeather::FogOrIceFogSkyInvisible1 => 43,
            PresentWeather::FogOrIceFogSkyVisibleNoChange => 44,
            PresentWeather::FogOrIceFogSkyInvisible2 => 45,
            PresentWeather::FogOrIceFogSkyVisibleHasThickened => 46,
            PresentWeather::FogOrIceFogSkyInvisible3 => 47,
            PresentWeather::FogDepositingRimeSkyVisible => 48,
            PresentWeather::FogDepositingRimeSkyInvisible => 49,
            PresentWeather::DrizzleNotFreezingIntermittentSlight => 50,
            PresentWeather::DrizzleNotFreezingContinuous => 51,
            PresentWeather::DrizzleNotFreezingIntermittentModerate => 52,
            PresentWeather::DrizzleNotFreezingContinuousHeavy => 53,
            PresentWeather::DrizzleNotFreezingIntermittentHeavy => 54,
            PresentWeather::DrizzleNotFreezingContinuousAgain => 55,
            PresentWeather::DrizzleFreezingSlight => 56,
            PresentWeather::DrizzleFreezingModerateOrHeavy => 57,
            PresentWeather::DrizzleAndRainSlight => 58,
            PresentWeather::DrizzleAndRainModerateOrHeavy => 59,
            PresentWeather::RainNotFreezingIntermittentSlight => 60,
            PresentWeather::RainNotFreezingContinuous => 61,
            PresentWeather::RainNotFreezingIntermittentModerate => 62,
            PresentWeather::RainNotFreezingContinuousAgain => 63,
            PresentWeather::RainNotFreezingIntermittentHeavy => 64,
            PresentWeather::RainNotFreezingContinuousHeavy => 65,
            PresentWeather::RainFreezingSlight => 66,
            PresentWeather::RainFreezingModerateOrHeavy => 67,
            PresentWeather::RainOrDrizzleAndSnowSlight => 68,
            PresentWeather::RainOrDrizzleAndSnowModerateOrHeavy => 69,
            PresentWeather::SnowflakesIntermittentSlight => 70,
            PresentWeather::SnowflakesContinuous => 71,
            PresentWeather::SnowflakesIntermittentModerate => 72,
            PresentWeather::SnowflakesContinuousAgain => 73,
            PresentWeather::SnowflakesIntermittentHeavy => 74,
            PresentWeather::SnowflakesContinuousHeavy => 75,
            PresentWeather::DiamondDust => 76,
            PresentWeather::SnowGrains => 77,
            PresentWeather::StarLikeSnowCrystals => 78,
            PresentWeather::IcePellets => 79,
            PresentWeather::RainShowersSlight => 80,
            PresentWeather::RainShowersModerateOrHeavy => 81,
            PresentWeather::RainShowerViolent => 82,
            PresentWeather::RainAndSnowMixedShowersSlight => 83,
            PresentWeather::RainAndSnowMixedShowersModerateOrHeavy => 84,
            PresentWeather::SnowShowersSlight => 85,
            PresentWeather::SnowShowersModerateOrHeavy => 86,
            PresentWeather::SnowPelletsOrSmallHailShowersSlight => 87,
            PresentWeather::SnowPelletsOrSmallHailShowersModerateOrHeavy => 88,
            PresentWeather::HailShowersWithoutThunderSlight => 89,
            PresentWeather::HailShowersWithoutThunderModerateOrHeavy => 90,
            PresentWeather::SlightRainAtObservationThunderPriorHour => 91,
            PresentWeather::ModerateOrHeavyRainAtObservation => 92,
            PresentWeather::SlightSnowOrRainAndSnowMixedOrHailAtObservation => 93,
            PresentWeather::ModerateOrHeavySnowOrRainAndSnowMixedOrHail => 94,
            PresentWeather::ThunderstormSlightOrModerateWithoutHail => 95,
            PresentWeather::ThunderstormSlightOrModerateWithHail => 96,
            PresentWeather::ThunderstormHeavyWithoutHail => 97,
            PresentWeather::ThunderstormWithDuststormOrSandstorm => 98,
            PresentWeather::ThunderstormHeavyWithHail => 99,
        }
    }

    /// The condition that the code figure `code` stands for; `None` for a figure above 99.
    pub fn from_code(code: u8) -> (found: Option<Self>)
        ensures
            match found {
                Some(weather) => weather.code() == code,
                None => code >= 100,
            },
    {
        match code {
            0 => Some(PresentWeather::CloudDevelopmentNotObserved),
            1 => Some(PresentWeather::CloudsDissolving),
            2 => Some(PresentWeather::SkyStateUnchanged),
            3 => Some(PresentWeather::CloudsForming),
            4 => Some(PresentWeather::VisibilityReducedBySmoke),
            5 => Some(PresentWeather::Haze),
            6 => Some(PresentWeather::WidespreadDustSuspended),
            7 => Some(PresentWeather::DustOrSandRaisedByWind),
            8 => Some(PresentWeather::DustOrSandWhirls),
            9 => Some(PresentWeather::DuststormOrSandstorm),
            10 => Some(PresentWeather::Mist),
            11 => Some(PresentWeather::PatchesShallowFogOrIceFog),
            12 => Some(PresentWeather::ContinuousFogOrIceFog),
            13 => Some(PresentWeather::LightningVisibleNoThunder),
            14 => Some(PresentWeather::PrecipitationInSightNotReachingGround),
            15 => Some(PresentWeather::PrecipitationInSightGroundDistant),
            16 => Some(PresentWeather::PrecipitationInSightNearStation),
            17 => Some(PresentWeather::ThunderstormNoPrecipitation),
            18 => Some(PresentWeather::Squalls),
            19 => Some(PresentWeather::FunnelClouds),
            20 => Some(PresentWeather::DrizzleNotFreezing),
            21 => Some(PresentWeather::RainNotFreezing),
            22 => Some(PresentWeather::Snow),
            23 => Some(PresentWeather::RainAndSnowOrIcePellets),
            24 => Some(PresentWeather::FreezingDrizzleOrFreezingRain),
            25 => Some(PresentWeather::ShowerOfRain),
            26 => Some(PresentWeather::ShowerOfSnowOrRainAndSnow),
            27 => Some(PresentWeather::ShowerOfHailOrRainAndHail),
            28 => Some(PresentWeather::FogOrIceFog),
            29 => Some(PresentWeather::ThunderstormWithOrWithoutPrecipitation),
            30 => Some(PresentWeather::SlightOrModerateDuststormHasDecreased),
            31 => Some(PresentWeather::DuststormNoChange),
            32 => Some(PresentWeather::DuststormHasBegunOrIncreased),
            33 => Some(PresentWeather::SevereDuststormHasDecreased),
            34 => Some(PresentWeather::SevereDuststormNoChange),
            35 => Some(PresentWeather::SevereDuststormHasBegunOrIncreased),
            36 => Some(PresentWeather::SlightOrModerateBlowingSnowLow),
            37 => Some(PresentWeather::HeavyDriftingSnow),
            38 => Some(PresentWeather::SlightOrModerateBlowingSnowHigh),
            39 => Some(PresentWeather::HeavyDriftingSnow2),
            40 => Some(PresentWeather::FogOrIceFogDistance),
            41 => Some(PresentWeather::FogOrIceFogInPatches),
            42 => Some(PresentWeather::FogOrIceFogSkyVisibleHasThinned),
            43 => Some(PresentWeather::FogOrIceFogSkyInvisible1),
            44 => Some(PresentWeather::FogOrIceFogSkyVisibleNoChange),
            45 => Some(PresentWeather::FogOrIceFogSkyInvisible2),
            46 => Some(PresentWeather::FogOrIceFogSkyVisibleHasThickened),
            47 => Some(PresentWeather::FogOrIceFogSkyInvisible3),
            48 => Some(PresentWeather::FogDepositingRimeSkyVisible),
            49 => Some(PresentWeather::FogDepositingRimeSkyInvisible),
            50 => Some(PresentWeather::DrizzleNotFreezingIntermittentSlight),
            51 => Some(PresentWeather::DrizzleNotFreezingContinuous),
            52 => Some(PresentWeather::DrizzleNotFreezingIntermittentModerate),
            53 => Some(PresentWeather::DrizzleNotFreezingContinuousHeavy),
            54 => Some(PresentWeather::DrizzleNotFreezingIntermittentHeavy),
            55 => Some(PresentWeather::DrizzleNotFreezingContinuousAgain),
            56 => Some(PresentWeather::DrizzleFreezingSlight),
            57 => Some(PresentWeather::DrizzleFreezingModerateOrHeavy),
            58 => Some(PresentWeather::DrizzleAndRainSlight),
            59 => Some(PresentWeather::DrizzleAndRainModerateOrHeavy),
            60 => Some(PresentWeather::RainNotFreezingIntermittentSlight),
            61 => Some(PresentWeather::RainNotFreezingContinuous),
            62 => Some(PresentWeather::RainNotFreezingIntermittentModerate),
            63 => Some(PresentWeather::RainNotFreezingContinuousAgain),
            64 => Some(PresentWeather::RainNotFreezingIntermittentHeavy),
            65 => Some(PresentWeather::RainNotFreezingContinuousHeavy),
            66 => Some(PresentWeather::RainFreezingSlight),
            67 => Some(PresentWeather::RainFreezingModerateOrHeavy),
            68 => Some(PresentWeather::RainOrDrizzleAndSnowSlight),
            69 => Some(PresentWeather::RainOrDrizzleAndSnowModerateOrHeavy),
            70 => Some(PresentWeather::SnowflakesIntermittentSlight),
            71 => Some(PresentWeather::SnowflakesContinuous),
            72 => Some(PresentWeather::SnowflakesIntermittentModerate),
            73 => Some(PresentWeather::SnowflakesContinuousAgain),
            74 => Some(PresentWeather::SnowflakesIntermittentHeavy),
            75 => Some(PresentWeather::SnowflakesContinuousHeavy),
            76 => Some(PresentWeather::DiamondDust),
            77 => Some(PresentWeather::SnowGrains),
            78 => Some(PresentWeather::StarLikeSnowCrystals),
            79 => Some(PresentWeather::IcePellets),
            80 => Some(PresentWeather::RainShowersSlight),
            81 => Some(PresentWeather::RainShowersModerateOrHeavy),
            82 => Some(PresentWeather::RainShowerViolent),
            83 => Some(PresentWeather::RainAndSnowMixedShowersSlight),
            84 => Some(PresentWeather::RainAndSnowMixedShowersModerateOrHeavy),
            85 => Some(PresentWeather::SnowShowersSlight),
            86 => Some(PresentWeather::SnowShowersModerateOrHeavy),
            87 => Some(PresentWeather::SnowPelletsOrSmallHailShowersSlight),
            88 => Some(PresentWeather::SnowPelletsOrSmallHailShowersModerateOrHeavy),
            89 => Some(PresentWeather::HailShowersWithoutThunderSlight),
            90 => Some(PresentWeather::HailShowersWithoutThunderModerateOrHeavy),
            91 => Some(PresentWeather::SlightRainAtObservationThunderPriorHour),
            92 => Some(PresentWeather::ModerateOrHeavyRainAtObservation),
            93 => Some(PresentWeather::SlightSnowOrRainAndSnowMixedOrHailAtObservation),
            94 => Some(PresentWeather::ModerateOrHeavySnowOrRainAndSnowMixedOrHail),
            95 => Some(PresentWeather::ThunderstormSlightOrModerateWithoutHail),
            96 => Some(PresentWeather::ThunderstormSlightOrModerateWithHail),
            97 => Some(PresentWeather::ThunderstormHeavyWithoutHail),
            98 => Some(PresentWeather::ThunderstormWithDuststormOrSandstorm),
            99 => Some(PresentWeather::ThunderstormHeavyWithHail),
            _ => None,
        }
    }

    /// The condition for a code figure as a report carries it, in 64 bits: only the
    /// lowest eight bits are read, so 256 reads as 0.
    pub fn from_reported_code(code: u64) -> (found: Option<Self>)
        ensures
            match found {
                Some(weather) => weather.code() == code % 256,
                None => code % 256 >= 100,
            },
    {
        let low: u64 = code % 256;
        Self::from_code(low as u8)
    }

    /// The code figure of the condition.
    pub fn to_code(&self) -> (code: u8)
        ensures
            code == self.code(),
    {
        match self {
            PresentWeather::CloudDevelopmentNotObserved => 0,
            PresentWeather::CloudsDissolving => 1,
            PresentWeather::SkyStateUnchanged => 2,
            PresentWeather::CloudsForming => 3,
            PresentWeather::VisibilityReducedBySmoke => 4,
            PresentWeather::Haze => 5,
            PresentWeather::WidespreadDustSuspended => 6,
            PresentWeather::DustOrSandRaisedByWind => 7,
            PresentWeather::DustOrSandWhirls => 8,
            PresentWeather::DuststormOrSandstorm => 9,
            PresentWeather::Mist => 10,
            PresentWeather::PatchesShallowFogOrIceFog => 11,
            PresentWeather::ContinuousFogOrIceFog => 12,
            PresentWeather::LightningVisibleNoThunder => 13,
            PresentWeather::PrecipitationInSightNotReachingGround => 14,
            PresentWeather::PrecipitationInSightGroundDistant => 15,
            PresentWeather::PrecipitationInSightNearStation => 16,
            PresentWeather::ThunderstormNoPrecipitation => 17,
            PresentWeather::Squalls => 18,
            PresentWeather::FunnelClouds => 19,
            PresentWeather::DrizzleNotFreezing => 20,
            PresentWeather::RainNotFreezing => 21,
            PresentWeather::Snow => 22,
            PresentWeather::RainAndSnowOrIcePellets => 23,
            PresentWeather::FreezingDrizzleOrFreezingRain => 24,
            PresentWeather::ShowerOfRain => 25,
            PresentWeather::ShowerOfSnowOrRainAndSnow => 26,
            PresentWeather::ShowerOfHailOrRainAndHail => 27,
            PresentWeather::FogOrIceFog => 28,
            PresentWeather::ThunderstormWithOrWithoutPrecipitation => 29,
            PresentWeather::SlightOrModerateDuststormHasDecreased => 30,
            PresentWeather::DuststormNoChange => 31,
            PresentWeather::DuststormHasBegunOrIncreased => 32,
            PresentWeather::SevereDuststormHasDecreased => 33,
            PresentWeather::SevereDuststormNoChange => 34,
            PresentWeather::SevereDuststormHasBegunOrIncreased => 35,
            PresentWeather::SlightOrModerateBlowingSnowLow => 36,
            PresentWeather::HeavyDriftingSnow => 37,
            PresentWeather::SlightOrModerateBlowingSnowHigh => 38,
            PresentWeather::HeavyDriftingSnow2 => 39,
            PresentWeather::FogOrIceFogDistance => 40,
            PresentWeather::FogOrIceFogInPatches => 41,
            PresentWeather::FogOrIceFogSkyVisibleHasThinned => 42,
            PresentWeather::FogOrIceFogSkyInvisible1 => 43,
            PresentWeather::FogOrIceFogSkyVisibleNoChange => 44,
            PresentWeather::FogOrIceFogSkyInvisible2 => 45,
            PresentWeather::FogOrIceFogSkyVisibleHasThickened => 46,
            PresentWeather::FogOrIceFogSkyInvisible3 => 47,
            PresentWeather::FogDepositingRimeSkyVisible => 48,
            PresentWeather::FogDepositingRimeSkyInvisible => 49,
            PresentWeather::DrizzleNotFreezingIntermittentSlight => 50,
            PresentWeather::DrizzleNotFreezingContinuous => 51,
            PresentWeather::DrizzleNotFreezingIntermittentModerate => 52,
            PresentWeather::DrizzleNotFreezingContinuousHeavy => 53,
            PresentWeather::DrizzleNotFreezingIntermittentHeavy => 54,
            PresentWeather::DrizzleNotFreezingContinuousAgain => 55,
            PresentWeather::DrizzleFreezingSlight => 56,
            PresentWeather::DrizzleFreezingModerateOrHeavy => 57,
            PresentWeather::DrizzleAndRainSlight => 58,
            PresentWeather::DrizzleAndRainModerateOrHeavy => 59,
            PresentWeather::RainNotFreezingIntermittentSlight => 60,
            PresentWeather::RainNotFreezingContinuous => 61,
            PresentWeather::RainNotFreezingIntermittentModerate => 62,
            PresentWeather::RainNotFreezingContinuousAgain => 63,
            PresentWeather::RainNotFreezingIntermittentHeavy => 64,
            PresentWeather::RainNotFreezingContinuousHeavy => 65,
            PresentWeather::RainFreezingSlight => 66,
            PresentWeather::RainFreezingModerateOrHeavy => 67,
            PresentWeather::RainOrDrizzleAndSnowSlight => 68,
            PresentWeather::RainOrDrizzleAndSnowModerateOrHeavy => 69,
            PresentWeather::SnowflakesIntermittentSlight => 70,
            PresentWeather::SnowflakesContinuous => 71,
            PresentWeather::SnowflakesIntermittentModerate => 72,
            PresentWeather::SnowflakesContinuousAgain => 73,
            PresentWeather::SnowflakesIntermittentHeavy => 74,
            PresentWeather::SnowflakesContinuousHeavy => 75,
            PresentWeather::DiamondDust => 76,
            PresentWeather::SnowGrains => 77,
            PresentWeather::StarLikeSnowCrystals => 78,
            PresentWeather::IcePellets => 79,
            PresentWeather::RainShowersSlight => 80,
            PresentWeather::RainShowersModerateOrHeavy => 81,
            PresentWeather::RainShowerViolent => 82,
            PresentWeather::RainAndSnowMixedShowersSlight => 83,
            PresentWeather::RainAndSnowMixedShowersModerateOrHeavy => 84,
            PresentWeather::SnowShowersSlight => 85,
            PresentWeather::SnowShowersModerateOrHeavy => 86,
            PresentWeather::SnowPelletsOrSmallHailShowersSlight => 87,
            PresentWeather::SnowPelletsOrSmallHailShowersModerateOrHeavy => 88,
            PresentWeather::HailShowersWithoutThunderSlight => 89,
            PresentWeather::HailShowersWithoutThunderModerateOrHeavy => 90,
            PresentWeather::SlightRainAtObservationThunderPriorHour => 91,
            PresentWeather::ModerateOrHeavyRainAtObservation => 92,
            PresentWeather::SlightSnowOrRainAndSnowMixedOrHailAtObservation => 93,
            PresentWeather::ModerateOrHeavySnowOrRainAndSnowMixedOrHail => 94,
            PresentWeather::ThunderstormSlightOrModerateWithoutHail => 95,
            PresentWeather::ThunderstormSlightOrModerateWithHail => 96,
            PresentWeather::ThunderstormHeavyWithoutHail => 97,
            PresentWeather::ThunderstormWithDuststormOrSandstorm => 98,
            PresentWeather::ThunderstormHeavyWithHail => 99,
        }
    }
}

/// Every condition has a code figure below 100, and no two conditions share one: the
/// condition that `from_code` finds for a figure is the only one with that figure.
pub proof fn lemma_codes_name_conditions(a: PresentWeather, b: PresentWeather)
    ensures
        a.code() < 100,
        a.code() == b.code() ==> a == b,
{
}

} // verus!
