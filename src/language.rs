use vstd::prelude::*;

verus! {

/// A language that the judge accepts a submission in.
#[derive(Clone, Copy, Debug, PartialEq, Eq, Structural)]
pub enum Language {
    C,
    Cpp,
    Java,
    Bash,
    Ada,
    Unsupported,
}

impl Language {
    /// The name shown to the user.
    pub fn name(&self) -> (r: String)
        ensures
            r@ == self.spec_name(),
    {
        match self {
            Language::C => String::from_str("C"),
            Language::Cpp => String::from_str("C++"),
            Language::Java => String::from_str("Java"),
            Language::Bash => String::from_str("Bash"),
            Language::Ada => String::from_str("Ada"),
            Language::Unsupported => String::from_str("Unsupported language"),
        }
    }

    pub open spec fn spec_name(&self) -> Seq<char> {
        match self {
            Language::C => "C"@,
            Language::Cpp => "C++"@,
            Language::Java => "Java"@,
            Language::Bash => "Bash"@,
            Language::Ada => "Ada"@,
            Language::Unsupported => "Unsupported language"@,
        }
    }
}

/// `c` is `lower` up to ASCII case, where `lower` is written in lower case.
pub open spec fn char_matches(c: char, lower: char) -> bool {
    c == lower || ('a' <= lower && lower <= 'z' && c as u32 + 32 == lower as u32)
}

/// `s` spells `name` (given in lower case) up to ASCII case.
pub open spec fn spells(s: Seq<char>, name: Seq<char>) -> bool {
    s.len() == name.len() && forall|i: int| 0 <= i < s.len() ==> char_matches(#[trigger] s[i], name[i])
}

/// The language that a name given on the command line denotes, if any.
pub open spec fn language_named(s: Seq<char>) -> Option<Language> {
    if spells(s, "c"@) {
        Some(Language::C)
    } else if spells(s, "c++"@) || spells(s, "cpp"@) {
        Some(Language::Cpp)
    } else if spells(s, "java"@) {
        Some(Language::Java)
    } else if spells(s, "bash"@) {
        Some(Language::Bash)
    } else if spells(s, "ada"@) {
        Some(Language::Ada)
    } else {
        None
    }
}

fn spells_name(s: &str, name: &str) -> (r: bool)
    ensures
        r == spells(s@, name@),
{
    let n = s.unicode_len();
    if n != name.unicode_len() {
        return false;
    }
    let mut i: usize = 0;
    while i < n
        invariant
            n == s@.len(),
            n == name@.len(),
            i <= n,
            forall|j: int| 0 <= j < i ==> char_matches(#[trigger] s@[j], name@[j]),
        decreases n - i,
    {
        let c = s.get_char(i);
        let l = name.get_char(i);
        let same = c == l || ('a' <= l && l <= 'z' && (c as u32) == (l as u32) - 32);
        if !same {
            assert(!char_matches(s@[i as int], name@[i as int]));
            return false;
        }
        i = i + 1;
    }
    true
}

/// Reads a language name as given on the command line, in any ASCII case.
pub fn parse_language(s: &str) -> (r: Option<Language>)
    ensures
        r == language_named(s@),
{
    if spells_name(s, "c") {
        Some(Language::C)
    } else if spells_name(s, "c++") || spells_name(s, "cpp") {
        Some(Language::Cpp)
    } else if spells_name(s, "java") {
        Some(Language::Java)
    } else if spells_name(s, "bash") {
        Some(Language::Bash)
    } else if spells_name(s, "ada") {
        Some(Language::Ada)
    } else {
        None
    }
}

} // verus!
