//! State of the dialog that helps the user pick a browser profile.
use vstd::prelude::*;
use crate::path::file_name;
use crate::profile::FirefoxProfileInfo;

verus! {

/// Events of the profile dialog.
#[derive(Debug, Clone, PartialEq, Eq)]
pub enum Message {
    Hide,
    Show,
    /// The session file of the chosen profile.
    SelectedSessionFile(String),
}

/// The known profiles, their display names, and whether the dialog is shown.
#[derive(Debug, Clone)]
pub struct State {
    profiles: Vec<FirefoxProfileInfo>,
    profile_names: Vec<String>,
    active: bool,
}

impl State {
    pub closed spec fn spec_profiles(&self) -> Seq<FirefoxProfileInfo> {
        self.profiles@
    }

    pub closed spec fn spec_names(&self) -> Seq<String> {
        self.profile_names@
    }

    pub closed spec fn spec_active(&self) -> bool {
        self.active
    }

    /// A hidden dialog listing `profiles`, each named after its folder.
    pub fn new(profiles: Vec<FirefoxProfileInfo>) -> (r: Self)
        ensures
            r.spec_profiles() == profiles@,
            r.spec_names().len() == profiles@.len(),
            forall|i: int|
                0 <= i < profiles@.len() ==> #[trigger] r.spec_names()[i]@ == file_name(
                    profiles@[i].path()@,
                ),
            !r.spec_active(),
    {
        let mut names: Vec<String> = Vec::new();
        let mut i: usize = 0;
        while i < profiles.len()
            invariant
                i <= profiles.len(),
                names@.len() == i,
                forall|j: int|
                    0 <= j < i ==> #[trigger] names@[j]@ == file_name(profiles@[j].path()@),
            decreases profiles.len() - i,
        {
            names.push(profiles[i].name());
            i = i + 1;
        }
        State { profiles, profile_names: names, active: false }
    }

    /// Show or hide the dialog; a chosen file hides nothing by itself.
    pub fn update(&mut self, message: &Message)
        ensures
            final(self).spec_profiles() == old(self).spec_profiles(),
            final(self).spec_names() == old(self).spec_names(),
            final(self).spec_active() == match message {
                Message::Hide => false,
                Message::Show => true,
                Message::SelectedSessionFile(_) => old(self).spec_active(),
            },
    {
        match message {
            Message::Hide => {
                self.active = false;
            },
            Message::Show => {
                self.active = true;
            },
            Message::SelectedSessionFile(_) => {},
        }
    }

    pub fn is_active(&self) -> (r: bool)
        ensures
            r == self.spec_active(),
    {
        self.active
    }

    pub fn profile_names(&self) -> (r: &Vec<String>)
        ensures
            r@ == self.spec_names(),
    {
        &self.profile_names
    }

    pub fn profiles(&self) -> (r: &Vec<FirefoxProfileInfo>)
        ensures
            r@ == self.spec_profiles(),
    {
        &self.profiles
    }
}

} // verus!
