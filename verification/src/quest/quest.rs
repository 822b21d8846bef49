use vstd::prelude::*;
use vstd::string::StringExecFns;

verus! {

/// A named quest with its description text.
pub struct Quest {
    pub title: String,
    pub description: String,
}

impl Quest {
    pub fn new(title: &str, description: &str) -> (quest: Quest)
        ensures
            quest.title@ == title@,
            quest.description@ == description@,
    {
        Quest { title: title.to_owned(), description: description.to_owned() }
    }

    /// Starting a quest reports it by title.
    pub fn start(&self) -> (msg: String)
        ensures
            msg@ == "Quest started: "@ + self.title@,
    {
        let mut msg = String::from_str("Quest started: ");
        msg.append(self.title.as_str());
        msg
    }
}

} // verus!
