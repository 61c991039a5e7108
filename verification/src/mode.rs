//! The GPU modes that the Cardwire daemon knows, and their numbering on the bus.
use vstd::string::*;
use vstd::prelude::*;

verus! {

/// A GPU mode of the Cardwire daemon.
#[derive(Clone, Copy, Debug, PartialEq, Eq, Structural)]
pub enum AppletMode {
    Integrated,
    Hybrid,
    Manual,
    Smart,
}

/// The modes in the order in which the daemon numbers them.
pub open spec fn all_modes_spec() -> Seq<AppletMode> {
    seq![AppletMode::Integrated, AppletMode::Hybrid, AppletMode::Manual, AppletMode::Smart]
}

impl AppletMode {
    /// The number by which the daemon's `Mode` property names this mode.
    pub open spec fn spec_value(self) -> u32 {
        match self {
            AppletMode::Integrated => 0,
            AppletMode::Hybrid => 1,
            AppletMode::Manual => 2,
            AppletMode::Smart => 3,
        }
    }

    /// The mode that the daemon numbers `v`, if any.
    pub open spec fn from_value_spec(v: u32) -> Option<AppletMode> {
        if v == 0 {
            Some(AppletMode::Integrated)
        } else if v == 1 {
            Some(AppletMode::Hybrid)
        } else if v == 2 {
            Some(AppletMode::Manual)
        } else if v == 3 {
            Some(AppletMode::Smart)
        } else {
            None
        }
    }

    /// The first mode of `all_modes_spec()` that differs from `excluded`.
    pub open spec fn first_except_spec(excluded: AppletMode) -> AppletMode {
        if excluded == AppletMode::Integrated {
            AppletMode::Hybrid
        } else {
            AppletMode::Integrated
        }
    }

    /// The name under which the mode is shown to the user.
    pub open spec fn label_spec(self) -> Seq<char> {
        match self {
            AppletMode::Integrated => "Integrated"@,
            AppletMode::Hybrid => "Hybrid"@,
            AppletMode::Manual => "Manual"@,
            AppletMode::Smart => "Smart"@,
        }
    }

    /// All modes, in the daemon's numbering order.
    pub fn all() -> (modes: [AppletMode; 4])
        ensures
            modes@ == all_modes_spec(),
    {
        let modes = [AppletMode::Integrated, AppletMode::Hybrid, AppletMode::Manual, AppletMode::Smart];
        assert(modes@ =~= all_modes_spec());
        modes
    }

    /// The number of this mode on the bus.
    pub fn value(self) -> (v: u32)
        ensures
            v == self.spec_value(),
    {
        match self {
            AppletMode::Integrated => 0,
            AppletMode::Hybrid => 1,
            AppletMode::Manual => 2,
            AppletMode::Smart => 3,
        }
    }

    /// The first mode, in numbering order, that is not `excluded`.
    pub fn first_except(excluded: AppletMode) -> (m: AppletMode)
        ensures
            m == Self::first_except_spec(excluded),
            m != excluded,
    {
        let modes = Self::all();
        let mut i: usize = 0;
        while i < 4
            invariant
                0 <= i <= 4,
                modes@ == all_modes_spec(),
                forall|j: int| 0 <= j < i ==> modes@[j] == excluded,
            decreases 4 - i,
        {
            if modes[i] != excluded {
                assert(i == 0 || (i == 1 && excluded == AppletMode::Integrated));
                return modes[i];
            }
            i = i + 1;
        }
        assert(modes@[0] == excluded && modes@[1] == excluded);
        AppletMode::Integrated
    }

    /// The name under which the mode is shown to the user.
    pub fn label(self) -> (s: String)
        ensures
            s@ == self.label_spec(),
    {
        match self {
            AppletMode::Integrated => String::from_str("Integrated"),
            AppletMode::Hybrid => String::from_str("Hybrid"),
            AppletMode::Manual => String::from_str("Manual"),
            AppletMode::Smart => String::from_str("Smart"),
        }
    }
}

/// The first mode other than `e` is other than `e`, and every mode numbered before it
/// is `e`.
pub proof fn lemma_first_except_is_first_other(e: AppletMode)
    ensures
        AppletMode::first_except_spec(e) != e,
        forall|j: int| 0 <= j < AppletMode::first_except_spec(e).spec_value()
            ==> #[trigger] all_modes_spec()[j] == e,
{
}

/// Distinct modes have distinct numbers, each below four, and each number below four
/// names exactly one mode.
pub proof fn lemma_value_is_a_numbering(a: AppletMode, b: AppletMode, v: u32)
    ensures
        a.spec_value() < 4,
        a.spec_value() == b.spec_value() ==> a == b,
        AppletMode::from_value_spec(a.spec_value()) == Some(a),
        v < 4 <==> AppletMode::from_value_spec(v) is Some,
        AppletMode::from_value_spec(v) matches Some(m) ==> m.spec_value() == v,
        all_modes_spec()[a.spec_value() as int] == a,
{
}

} // verus!
