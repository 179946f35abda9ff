//! Enumerations that can be read from what a person typed: every variant has its
//! name and may have shorter alternatives, and letter case is ignored.

use vstd::prelude::*;

verus! {

/// An enumeration whose variants can be listed and parsed by name.
pub trait Enumerate: Sized {
    /// The name of every variant, in the order of declaration.
    fn variants() -> &'static [&'static str];

    /// For every variant, its name followed by its alternatives.
    fn alternatives() -> &'static [&'static [&'static str]];

    /// The variant that `str` names, by its name or by an alternative, in any
    /// mix of upper and lower case.
    fn parse(str: &str) -> Option<Self>;
}

/// The lower-case form of an ASCII capital; any other character is left as it is.
pub open spec fn lower(c: char) -> char {
    if 'A' <= c && c <= 'Z' {
        ((c as u8 + 32) as u8) as char
    } else {
        c
    }
}

/// The text with every character in its lower-case form.
pub open spec fn lowercase(text: Seq<char>) -> Seq<char> {
    text.map_values(|c: char| lower(c))
}

/// Whether one of `names` is `text`, letter case ignored.
pub open spec fn names_it(names: Seq<&'static str>, text: Seq<char>) -> bool {
    exists|j: int| 0 <= j < names.len() && lowercase((#[trigger] names[j])@) == lowercase(text)
}

/// `str::to_ascii_lowercase`: a copy of the text in which the ASCII capitals `A` to
/// `Z` have become `a` to `z` and every other character is unchanged.
#[verifier::external_body]
fn ascii_lowercase(text: &str) -> (lowered: String)
    ensures
        lowered@ == lowercase(text@),
{
    text.to_ascii_lowercase()
}

/// The index of the first variant one of whose names is `text`, letter case ignored.
pub fn find_variant(alternatives: &[&'static [&'static str]], text: &str) -> (found: Option<usize>)
    ensures
        match found {
            Some(i) => {
                &&& i < alternatives@.len()
                &&& names_it(alternatives@[i as int]@, text@)
                &&& forall|earlier: int| 0 <= earlier < i ==> !names_it((#[trigger] alternatives@[earlier])@, text@)
            },
            None => forall|i: int| 0 <= i < alternatives@.len() ==> !names_it((#[trigger] alternatives@[i])@, text@),
        },
{
    let wanted = ascii_lowercase(text);
    let mut i: usize = 0;
    while i < alternatives.len()
        invariant
            i <= alternatives@.len(),
            wanted@ == lowercase(text@),
            forall|earlier: int| 0 <= earlier < i ==> !names_it((#[trigger] alternatives@[earlier])@, text@),
        decreases alternatives@.len() - i,
    {
        let names = alternatives[i];
        let mut j: usize = 0;
        while j < names.len()
            invariant
                j <= names@.len(),
                i < alternatives@.len(),
                names@ == alternatives@[i as int]@,
                wanted@ == lowercase(text@),
                forall|earlier: int| 0 <= earlier < i ==> !names_it((#[trigger] alternatives@[earlier])@, text@),
                forall|before: int| 0 <= before < j ==> lowercase((#[trigger] names@[before])@) != lowercase(text@),
            decreases names@.len() - j,
        {
            if ascii_lowercase(names[j]) == wanted {
                assert(lowercase(alternatives@[i as int]@[j as int]@) == lowercase(text@));
                return Some(i);
            }
            j += 1;
        }
        i += 1;
    }
    None
}

/// The answer to a yes-or-no question.
#[derive(Debug, Clone, Copy, PartialEq, Eq)]
pub enum YesNo {
    Yes,
    No,
}

impl YesNo {
    /// What an answer means: "yes", "y" or "j" is a yes, "no" or "n" is a no, in any
    /// mix of upper and lower case; anything else is no answer.
    pub open spec fn meant_by(text: Seq<char>) -> Option<YesNo> {
        let said = lowercase(text);
        if said == "yes"@ || said == "y"@ || said == "j"@ {
            Some(YesNo::Yes)
        } else if said == "no"@ || said == "n"@ {
            Some(YesNo::No)
        } else {
            None
        }
    }
}

impl Enumerate for YesNo {
    fn variants() -> (names: &'static [&'static str])
        ensures
            names@.len() == 2,
            names@[0]@ == "Yes"@,
            names@[1]@ == "No"@,
    {
        &["Yes", "No"]
    }

    fn alternatives() -> (table: &'static [&'static [&'static str]])
        ensures
            table@.len() == 2,
            table@[0]@.len() == 3,
            table@[0]@[0]@ == "Yes"@,
            table@[0]@[1]@ == "y"@,
            table@[0]@[2]@ == "j"@,
            table@[1]@.len() == 2,
            table@[1]@[0]@ == "No"@,
            table@[1]@[1]@ == "n"@,
    {
        &[&["Yes", "y", "j"], &["No", "n"]]
    }

    fn parse(str: &str) -> (answer: Option<Self>)
        ensures
            answer == YesNo::meant_by(str@),
    {
        let table = Self::alternatives();
        proof {
            reveal_strlit("Yes");
            reveal_strlit("yes");
            reveal_strlit("y");
            reveal_strlit("j");
            reveal_strlit("No");
            reveal_strlit("no");
            reveal_strlit("n");
            assert(lowercase("Yes"@) =~= "yes"@);
            assert(lowercase("y"@) =~= "y"@);
            assert(lowercase("j"@) =~= "j"@);
            assert(lowercase("No"@) =~= "no"@);
            assert(lowercase("n"@) =~= "n"@);
            let said = lowercase(str@);
            assert(names_it(table@[0]@, str@) <==> (said == "yes"@ || said == "y"@ || said == "j"@)) by {
                if said == "yes"@ {
                    assert(lowercase(table@[0]@[0]@) == said);
                }
                if said == "y"@ {
                    assert(lowercase(table@[0]@[1]@) == said);
                }
                if said == "j"@ {
                    assert(lowercase(table@[0]@[2]@) == said);
                }
            }
            assert(names_it(table@[1]@, str@) <==> (said == "no"@ || said == "n"@)) by {
                if said == "no"@ {
                    assert(lowercase(table@[1]@[0]@) == said);
                }
                if said == "n"@ {
                    assert(lowercase(table@[1]@[1]@) == said);
                }
            }
        }
        match find_variant(table, str) {
            Some(0) => Some(YesNo::Yes),
            Some(1) => Some(YesNo::No),
            _ => None,
        }
    }
}

} // verus!
