//! The pure state behind the client's preferences screen and main menu.
//!
//! The rendering itself belongs to the presentation layer, which consumes
//! the harness's message stream and is outside this library; only the
//! state, its messages and its update rule live here.

use vstd::prelude::*;

verus! {

/// Where the tests are to run.
#[derive(Clone, PartialEq, Eq, Copy, Debug)]
pub enum TestPlace {
    Local,
    Ssh,
}

impl TestPlace {
    /// The label shown for this place.
    pub fn desc(&self) -> (r: &'static str)
        ensures
            self is Local ==> r@ == "Local instance"@,
            self is Ssh ==> r@ == "Ssh instance"@,
    {
        match self {
            TestPlace::Local => "Local instance",
            TestPlace::Ssh => "Ssh instance",
        }
    }
}

/// One change requested on the preferences screen.
#[derive(Clone, Debug)]
pub enum TrstPreferencesMessage {
    ConcurrencySelected(bool),
    TestPlaceSelected(TestPlace),
    GitAddressChange(String),
}

/// The preferences screen's state.
#[derive(Debug)]
pub struct TrstPreferences {
    pub concurrency: bool,
    pub test_place: Option<TestPlace>,
    pub git_address: String,
}

impl Default for TrstPreferences {
    fn default() -> (r: Self)
        ensures
            !r.concurrency,
            r.test_place is None,
            r.git_address@ == Seq::<char>::empty(),
    {
        TrstPreferences { concurrency: false, test_place: None, git_address: String::new() }
    }
}

impl TrstPreferences {
    /// Applies one requested change, leaving the other fields as they were.
    pub fn update(&mut self, msg: TrstPreferencesMessage)
        ensures
            msg matches TrstPreferencesMessage::ConcurrencySelected(val)
                ==> (final(self).concurrency == val
                && final(self).test_place == old(self).test_place
                && final(self).git_address == old(self).git_address),
            msg matches TrstPreferencesMessage::TestPlaceSelected(place)
                ==> (final(self).test_place == Some(place)
                && final(self).concurrency == old(self).concurrency
                && final(self).git_address == old(self).git_address),
            msg matches TrstPreferencesMessage::GitAddressChange(address)
                ==> (final(self).git_address == address
                && final(self).concurrency == old(self).concurrency
                && final(self).test_place == old(self).test_place),
    {
        match msg {
            TrstPreferencesMessage::ConcurrencySelected(val) => self.concurrency = val,
            TrstPreferencesMessage::TestPlaceSelected(place) => self.test_place = Some(place),
            TrstPreferencesMessage::GitAddressChange(address) => self.git_address = address,
        }
    }

    /// The screen offers the git settings box exactly when the selected
    /// testing place is the ssh instance.
    pub fn shows_git_settings(&self) -> (r: bool)
        ensures
            r == (self.test_place == Some(TestPlace::Ssh)),
    {
        match self.test_place {
            Some(TestPlace::Ssh) => true,
            _ => false,
        }
    }
}

/// The main menu holds no state of its own; its buttons are rendered by the
/// presentation layer.
#[derive(Debug)]
pub struct TrstMainMenu {}

impl Default for TrstMainMenu {
    fn default() -> (r: Self)
        ensures
            r == (TrstMainMenu {  }),
    {
        TrstMainMenu {  }
    }
}

} // verus!
