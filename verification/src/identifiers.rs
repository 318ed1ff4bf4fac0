//! The names of the interactive controls that the engine puts on messages.

use vstd::prelude::*;
use vstd::string::*;

verus! {

pub const ONBOARDING_START: &'static str = "onboarding_start";

pub const ONBOARDING_ARCHIVE: &'static str = "onboarding_archive";

pub const ONBOARDING_DELETE: &'static str = "onboarding_delete";

pub const SETUP_ONBOARDING: &'static str = "setup_onboarding";

pub const SETUP_GO_BACK: &'static str = "setup_go_back";

pub const SETUP_DONE: &'static str = "setup_done";

/// An interactive control of the engine.
#[derive(Clone, Copy, Debug, PartialEq, Eq, Structural)]
pub enum Component {
    OnboardingStart,
    OnboardingArchive,
    OnboardingDelete,
    SetupOnboarding,
    SetupGoBack,
    SetupDone,
}

impl Component {
    /// The name by which the platform reports a press of the control.
    pub open spec fn custom_id_text(self) -> Seq<char> {
        match self {
            Component::OnboardingStart => ONBOARDING_START@,
            Component::OnboardingArchive => ONBOARDING_ARCHIVE@,
            Component::OnboardingDelete => ONBOARDING_DELETE@,
            Component::SetupOnboarding => SETUP_ONBOARDING@,
            Component::SetupGoBack => SETUP_GO_BACK@,
            Component::SetupDone => SETUP_DONE@,
        }
    }

    /// The control that goes by the given name, if there is one.
    pub open spec fn named(name: Seq<char>) -> Option<Component> {
        if name == ONBOARDING_START@ {
            Some(Component::OnboardingStart)
        } else if name == ONBOARDING_ARCHIVE@ {
            Some(Component::OnboardingArchive)
        } else if name == ONBOARDING_DELETE@ {
            Some(Component::OnboardingDelete)
        } else if name == SETUP_ONBOARDING@ {
            Some(Component::SetupOnboarding)
        } else if name == SETUP_GO_BACK@ {
            Some(Component::SetupGoBack)
        } else if name == SETUP_DONE@ {
            Some(Component::SetupDone)
        } else {
            None
        }
    }

    /// The name by which the platform reports a press of the control.
    pub fn custom_id(&self) -> (name: &'static str)
        ensures
            name@ == self.custom_id_text(),
    {
        match self {
            Component::OnboardingStart => ONBOARDING_START,
            Component::OnboardingArchive => ONBOARDING_ARCHIVE,
            Component::OnboardingDelete => ONBOARDING_DELETE,
            Component::SetupOnboarding => SETUP_ONBOARDING,
            Component::SetupGoBack => SETUP_GO_BACK,
            Component::SetupDone => SETUP_DONE,
        }
    }

    /// Recognises a control by its name.
    pub fn from_custom_id(name: &str) -> (component: Option<Component>)
        ensures
            component == Component::named(name@),
    {
        let name = String::from_str(name);
        if name == String::from_str(ONBOARDING_START) {
            Some(Component::OnboardingStart)
        } else if name == String::from_str(ONBOARDING_ARCHIVE) {
            Some(Component::OnboardingArchive)
        } else if name == String::from_str(ONBOARDING_DELETE) {
            Some(Component::OnboardingDelete)
        } else if name == String::from_str(SETUP_ONBOARDING) {
            Some(Component::SetupOnboarding)
        } else if name == String::from_str(SETUP_GO_BACK) {
            Some(Component::SetupGoBack)
        } else if name == String::from_str(SETUP_DONE) {
            Some(Component::SetupDone)
        } else {
            None
        }
    }
}

/// Every control is recognised by its own name: no two controls share one.
pub proof fn component_names_are_distinct(component: Component)
    ensures
        Component::named(component.custom_id_text()) == Some(component),
{
    reveal_strlit("onboarding_start");
    reveal_strlit("onboarding_archive");
    reveal_strlit("onboarding_delete");
    reveal_strlit("setup_onboarding");
    reveal_strlit("setup_go_back");
    reveal_strlit("setup_done");
    assert(ONBOARDING_START@.len() == 16);
    assert(ONBOARDING_ARCHIVE@.len() == 18);
    assert(ONBOARDING_DELETE@.len() == 17);
    assert(SETUP_ONBOARDING@.len() == 16);
    assert(SETUP_GO_BACK@.len() == 13);
    assert(SETUP_DONE@.len() == 10);
    assert(ONBOARDING_START@[0] == 'o');
    assert(SETUP_ONBOARDING@[0] == 's');
}

} // verus!
