//! The sandbox provisioner: one explicit decision for every capability class.

use vstd::prelude::*;
use vstd::string::*;

verus! {

/// The decision for one capability class that is granted by name: hosts,
/// paths, variables, programs.
#[derive(Debug, PartialEq, Eq)]
pub enum Access {
    /// Nothing of the class may be reached.
    Denied,
    /// Only what is listed may be reached. An empty list reaches nothing.
    Listed(Vec<String>),
    /// Everything of the class may be reached.
    Unrestricted,
}

/// An access decision, as contracts speak of it.
pub enum AccessView {
    Denied,
    Listed(Seq<Seq<char>>),
    Unrestricted,
}

impl AccessView {
    /// Whether the decision lets the guest reach `name`.
    pub open spec fn permits(self, name: Seq<char>) -> bool {
        match self {
            AccessView::Denied => false,
            AccessView::Listed(names) => names.contains(name),
            AccessView::Unrestricted => true,
        }
    }
}

/// The names of a list, as texts.
pub open spec fn names_of(list: Seq<String>) -> Seq<Seq<char>> {
    list.map_values(|name: String| name@)
}

impl View for Access {
    type V = AccessView;

    open spec fn view(&self) -> AccessView {
        match self {
            Access::Denied => AccessView::Denied,
            Access::Listed(names) => AccessView::Listed(names_of(names@)),
            Access::Unrestricted => AccessView::Unrestricted,
        }
    }
}

impl Access {
    /// Decides whether the guest may reach `name`.
    pub fn permits(&self, name: &str) -> (allowed: bool)
        ensures
            allowed == self@.permits(name@),
    {
        match self {
            Access::Denied => false,
            Access::Unrestricted => true,
            Access::Listed(names) => {
                let wanted = String::from_str(name);
                let mut i: usize = 0;
                while i < names.len()
                    invariant
                        i <= names.len(),
                        wanted@ == name@,
                        self@ == AccessView::Listed(names_of(names@)),
                        forall|k: int| 0 <= k < i ==> names_of(names@)[k] != name@,
                    decreases names.len() - i,
                {
                    if names[i] == wanted {
                        assert(names_of(names@)[i as int] == name@);
                        assert(names_of(names@).contains(name@));
                        return true;
                    }
                    i = i + 1;
                }
                false
            },
        }
    }
}

/// What an allow-list grants in the encoding of the guest runtime: nothing
/// where there is no list, everything where the list is empty, and otherwise
/// what the list names.
pub open spec fn allow_list_permits(list: Option<Seq<Seq<char>>>, name: Seq<char>) -> bool {
    match list {
        None => false,
        Some(names) => names.len() == 0 || names.contains(name),
    }
}

/// The allow-list that stands for a decision in the encoding of the guest
/// runtime. A decision that lists nothing is a denial there, not an empty list.
pub open spec fn allow_list_of(access: AccessView) -> Option<Seq<Seq<char>>> {
    match access {
        AccessView::Denied => None,
        AccessView::Listed(names) => if names.len() == 0 {
            None
        } else {
            Some(names)
        },
        AccessView::Unrestricted => Some(Seq::empty()),
    }
}

/// The encoding grants exactly what the decision grants.
pub proof fn lemma_allow_list_grants_the_same(access: AccessView, name: Seq<char>)
    ensures
        allow_list_permits(allow_list_of(access), name) == access.permits(name),
{
}

impl Access {
    /// Encodes the decision as the allow-list that the guest runtime takes.
    pub fn allow_list(&self) -> (list: Option<Vec<String>>)
        ensures
            match list {
                Some(names) => allow_list_of(self@) == Some(names_of(names@)),
                None => allow_list_of(self@) is None,
            },
    {
        match self {
            Access::Denied => None,
            Access::Unrestricted => {
                let everything: Vec<String> = Vec::new();
                assert(names_of(everything@) =~= Seq::<Seq<char>>::empty());
                Some(everything)
            },
            Access::Listed(names) => {
                if names.len() == 0 {
                    return None;
                }
                let mut copied: Vec<String> = Vec::new();
                let mut i: usize = 0;
                while i < names.len()
                    invariant
                        i <= names.len(),
                        copied@.len() == i,
                        forall|k: int| 0 <= k < i ==> (#[trigger] copied@[k])@ == names@[k]@,
                    decreases names.len() - i,
                {
                    copied.push(names[i].clone());
                    i = i + 1;
                }
                assert(names_of(copied@) =~= names_of(names@));
                Some(copied)
            },
        }
    }
}

/// What an invocation asks for beyond the default. A class without an
/// override gets the default of the mode.
#[derive(Debug, PartialEq, Eq)]
pub struct CapabilityOverrides {
    /// The blanket mode of trusted internal invocations: classes without an
    /// override are open, except the network and the high-resolution timer.
    pub blanket_allow: bool,
    pub network: Option<Access>,
    pub file_system: Option<Access>,
    pub environment: Option<Access>,
    pub process: Option<Access>,
    pub system_information: Option<Access>,
    pub foreign_functions: Option<Access>,
    pub high_resolution_time: Option<bool>,
}

/// Capability overrides, as contracts speak of them.
pub struct OverridesView {
    pub blanket_allow: bool,
    pub network: Option<AccessView>,
    pub file_system: Option<AccessView>,
    pub environment: Option<AccessView>,
    pub process: Option<AccessView>,
    pub system_information: Option<AccessView>,
    pub foreign_functions: Option<AccessView>,
    pub high_resolution_time: Option<bool>,
}

/// The view of an optional access decision.
pub open spec fn access_view(access: Option<Access>) -> Option<AccessView> {
    match access {
        Some(decision) => Some(decision@),
        None => None,
    }
}

impl View for CapabilityOverrides {
    type V = OverridesView;

    open spec fn view(&self) -> OverridesView {
        OverridesView {
            blanket_allow: self.blanket_allow,
            network: access_view(self.network),
            file_system: access_view(self.file_system),
            environment: access_view(self.environment),
            process: access_view(self.process),
            system_information: access_view(self.system_information),
            foreign_functions: access_view(self.foreign_functions),
            high_resolution_time: self.high_resolution_time,
        }
    }
}

/// The decisions under which one guest runtime runs: one for every
/// capability class, none left to a default of the runtime.
#[derive(Debug, PartialEq, Eq)]
pub struct CapabilityDescriptor {
    /// The hosts that may be reached.
    pub network: Access,
    /// The paths that may be read and written.
    pub file_system: Access,
    /// The environment variables that may be read and set.
    pub environment: Access,
    /// The programs that may be spawned.
    pub process: Access,
    /// The kinds of information on the host system that may be asked for.
    pub system_information: Access,
    /// The native libraries that may be loaded and called.
    pub foreign_functions: Access,
    /// Whether time may be measured at high resolution.
    pub high_resolution_time: bool,
    /// Whether the runtime may ask interactively for what is not granted.
    pub prompt: bool,
}

/// A capability descriptor, as contracts speak of it.
pub struct DescriptorView {
    pub network: AccessView,
    pub file_system: AccessView,
    pub environment: AccessView,
    pub process: AccessView,
    pub system_information: AccessView,
    pub foreign_functions: AccessView,
    pub high_resolution_time: bool,
    pub prompt: bool,
}

impl View for CapabilityDescriptor {
    type V = DescriptorView;

    open spec fn view(&self) -> DescriptorView {
        DescriptorView {
            network: self.network@,
            file_system: self.file_system@,
            environment: self.environment@,
            process: self.process@,
            system_information: self.system_information@,
            foreign_functions: self.foreign_functions@,
            high_resolution_time: self.high_resolution_time,
            prompt: self.prompt,
        }
    }
}

/// The decision for a class other than the network: the override where
/// there is one, everything in blanket mode, nothing otherwise.
pub open spec fn decided(blanket_allow: bool, requested: Option<AccessView>) -> AccessView {
    match requested {
        Some(decision) => decision,
        None => if blanket_allow {
            AccessView::Unrestricted
        } else {
            AccessView::Denied
        },
    }
}

/// The decision for the network: the override where there is one; without
/// one, the empty allow-list in blanket mode and a denial otherwise, so that
/// no host is reached that was not named.
pub open spec fn decided_network(blanket_allow: bool, requested: Option<AccessView>) -> AccessView {
    match requested {
        Some(decision) => decision,
        None => if blanket_allow {
            AccessView::Listed(Seq::empty())
        } else {
            AccessView::Denied
        },
    }
}

/// The descriptor that the overrides stand for. The high-resolution timer is
/// open only where asked for by name, and prompting is always off.
pub open spec fn built(overrides: OverridesView) -> DescriptorView {
    DescriptorView {
        network: decided_network(overrides.blanket_allow, overrides.network),
        file_system: decided(overrides.blanket_allow, overrides.file_system),
        environment: decided(overrides.blanket_allow, overrides.environment),
        process: decided(overrides.blanket_allow, overrides.process),
        system_information: decided(overrides.blanket_allow, overrides.system_information),
        foreign_functions: decided(overrides.blanket_allow, overrides.foreign_functions),
        high_resolution_time: overrides.high_resolution_time == Some(true),
        prompt: false,
    }
}

fn decide(blanket_allow: bool, requested: Option<Access>) -> (decision: Access)
    ensures
        decision@ == decided(blanket_allow, access_view(requested)),
{
    match requested {
        Some(decision) => decision,
        None => if blanket_allow {
            Access::Unrestricted
        } else {
            Access::Denied
        },
    }
}

fn decide_network(blanket_allow: bool, requested: Option<Access>) -> (decision: Access)
    ensures
        decision@ == decided_network(blanket_allow, access_view(requested)),
{
    match requested {
        Some(decision) => decision,
        None => if blanket_allow {
            let hosts: Vec<String> = Vec::new();
            assert(names_of(hosts@) =~= Seq::<Seq<char>>::empty());
            Access::Listed(hosts)
        } else {
            Access::Denied
        },
    }
}

impl CapabilityOverrides {
    /// The overrides of a mode in which nothing is asked for by name.
    pub open spec fn unnamed_view(blanket_allow: bool) -> OverridesView {
        OverridesView {
            blanket_allow,
            network: None,
            file_system: None,
            environment: None,
            process: None,
            system_information: None,
            foreign_functions: None,
            high_resolution_time: None,
        }
    }

    /// The overrides of `none`.
    pub open spec fn none_view() -> OverridesView {
        Self::unnamed_view(false)
    }

    /// The overrides of `insecure`.
    pub open spec fn insecure_view() -> OverridesView {
        Self::unnamed_view(true)
    }

    /// No override at all: every class is denied.
    pub fn none() -> (overrides: CapabilityOverrides)
        ensures
            overrides@ == Self::none_view(),
    {
        CapabilityOverrides {
            blanket_allow: false,
            network: None,
            file_system: None,
            environment: None,
            process: None,
            system_information: None,
            foreign_functions: None,
            high_resolution_time: None,
        }
    }

    /// The policy of a function that nobody has vetted for security: blanket
    /// mode with no override, which opens everything but the network and the
    /// high-resolution timer.
    pub fn insecure() -> (overrides: CapabilityOverrides)
        ensures
            overrides@ == Self::insecure_view(),
    {
        CapabilityOverrides {
            blanket_allow: true,
            network: None,
            file_system: None,
            environment: None,
            process: None,
            system_information: None,
            foreign_functions: None,
            high_resolution_time: None,
        }
    }
}

/// Builds the capability descriptor of one invocation.
pub fn build(overrides: CapabilityOverrides) -> (descriptor: CapabilityDescriptor)
    ensures
        descriptor@ == built(overrides@),
{
    let blanket_allow = overrides.blanket_allow;
    CapabilityDescriptor {
        network: decide_network(blanket_allow, overrides.network),
        file_system: decide(blanket_allow, overrides.file_system),
        environment: decide(blanket_allow, overrides.environment),
        process: decide(blanket_allow, overrides.process),
        system_information: decide(blanket_allow, overrides.system_information),
        foreign_functions: decide(blanket_allow, overrides.foreign_functions),
        high_resolution_time: match overrides.high_resolution_time {
            Some(open) => open,
            None => false,
        },
        prompt: false,
    }
}

/// No descriptor lets the runtime prompt.
pub proof fn lemma_never_prompts(overrides: OverridesView)
    ensures
        !built(overrides).prompt,
{
}

/// Without any override and outside blanket mode, nothing is reachable.
pub proof fn lemma_fails_closed(overrides: OverridesView, name: Seq<char>)
    requires
        !overrides.blanket_allow,
        overrides.network is None,
        overrides.file_system is None,
        overrides.environment is None,
        overrides.process is None,
        overrides.system_information is None,
        overrides.foreign_functions is None,
        overrides.high_resolution_time is None,
    ensures
        !built(overrides).network.permits(name),
        !built(overrides).file_system.permits(name),
        !built(overrides).environment.permits(name),
        !built(overrides).process.permits(name),
        !built(overrides).system_information.permits(name),
        !built(overrides).foreign_functions.permits(name),
        !built(overrides).high_resolution_time,
{
}

/// Blanket mode alone reaches no host: the network is open only to hosts
/// that an override names.
pub proof fn lemma_blanket_reaches_no_host(overrides: OverridesView, host: Seq<char>)
    requires
        overrides.network is None,
    ensures
        !built(overrides).network.permits(host),
{
}

/// Widening one class widens no other: two sets of overrides in the same
/// mode give every class on whose override they agree the same decision.
pub proof fn lemma_classes_are_independent(first: OverridesView, second: OverridesView)
    requires
        first.blanket_allow == second.blanket_allow,
    ensures
        first.network == second.network ==> built(first).network == built(second).network,
        first.file_system == second.file_system ==> built(first).file_system == built(
            second,
        ).file_system,
        first.environment == second.environment ==> built(first).environment == built(
            second,
        ).environment,
        first.process == second.process ==> built(first).process == built(second).process,
        first.system_information == second.system_information ==> built(
            first,
        ).system_information == built(second).system_information,
        first.foreign_functions == second.foreign_functions ==> built(first).foreign_functions
            == built(second).foreign_functions,
        first.high_resolution_time == second.high_resolution_time ==> built(
            first,
        ).high_resolution_time == built(second).high_resolution_time,
{
}

} // verus!
