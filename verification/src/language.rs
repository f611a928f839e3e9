//! The two languages in which the program speaks.

use vstd::prelude::*;

verus! {

#[derive(Debug, Clone, Copy, PartialEq, Eq, Structural)]
pub enum Language {
    Chinese,
    English,
}

impl Language {
    /// What is said in this language, of a text in both.
    pub open spec fn says(self, zh: Seq<char>, en: Seq<char>) -> Seq<char> {
        match self {
            Language::Chinese => zh,
            Language::English => en,
        }
    }

    /// What is said in this language, of a text in both.
    pub fn t(self, zh: &'static str, en: &'static str) -> (r: &'static str)
        ensures
            r@ == self.says(zh@, en@),
    {
        match self {
            Language::Chinese => zh,
            Language::English => en,
        }
    }
}

} // verus!
