//! The names by which a run chooses its tool and its property.

use vstd::prelude::*;

verus! {

/// Whether `s` and `t` hold the same characters.
pub fn same_text(s: &str, t: &str) -> (r: bool)
    ensures
        r == (s@ == t@),
{
    let n = s.unicode_len();
    if n != t.unicode_len() {
        return false;
    }
    for i in 0..n
        invariant
            n == s@.len(),
            n == t@.len(),
            forall|j: int| 0 <= j < i ==> s@[j] == t@[j],
    {
        if s.get_char(i) != t.get_char(i) {
            return false;
        }
    }
    assert(s@ =~= t@);
    true
}

/// A property-testing tool that a run can drive.
#[derive(Debug, Clone, Copy, PartialEq, Eq)]
pub enum Tool {
    Etna,
    Proptest,
    Quickcheck,
    Crabcheck,
    Hegel,
}

/// The tool of a name, if any.
pub open spec fn tool_named(name: Seq<char>) -> Option<Tool> {
    if name == "etna"@ {
        Some(Tool::Etna)
    } else if name == "proptest"@ {
        Some(Tool::Proptest)
    } else if name == "quickcheck"@ {
        Some(Tool::Quickcheck)
    } else if name == "crabcheck"@ {
        Some(Tool::Crabcheck)
    } else if name == "hegel"@ {
        Some(Tool::Hegel)
    } else {
        None
    }
}

impl Tool {
    /// The tool that `name` names: `etna`, `proptest`, `quickcheck`,
    /// `crabcheck` or `hegel`.
    pub fn from_name(name: &str) -> (r: Option<Tool>)
        ensures
            r == tool_named(name@),
    {
        if same_text(name, "etna") {
            Some(Tool::Etna)
        } else if same_text(name, "proptest") {
            Some(Tool::Proptest)
        } else if same_text(name, "quickcheck") {
            Some(Tool::Quickcheck)
        } else if same_text(name, "crabcheck") {
            Some(Tool::Crabcheck)
        } else if same_text(name, "hegel") {
            Some(Tool::Hegel)
        } else {
            None
        }
    }
}

/// One of the properties that a run can check.
#[derive(Debug, Clone, Copy, PartialEq, Eq)]
pub enum Property {
    DontPanicOnDrop,
    SmallDictNoPanic,
    DecompressShortInputNoPanic,
}

/// The name of a property.
pub open spec fn property_name(p: Property) -> Seq<char> {
    match p {
        Property::DontPanicOnDrop => "DontPanicOnDrop"@,
        Property::SmallDictNoPanic => "SmallDictNoPanic"@,
        Property::DecompressShortInputNoPanic => "DecompressShortInputNoPanic"@,
    }
}

/// The property of a name, if any.
pub open spec fn property_named(name: Seq<char>) -> Option<Property> {
    if name == "DontPanicOnDrop"@ {
        Some(Property::DontPanicOnDrop)
    } else if name == "SmallDictNoPanic"@ {
        Some(Property::SmallDictNoPanic)
    } else if name == "DecompressShortInputNoPanic"@ {
        Some(Property::DecompressShortInputNoPanic)
    } else {
        None
    }
}

/// The name that selects every property at once.
pub open spec fn names_all(name: Seq<char>) -> bool {
    name == "All"@
}

/// The properties in the order in which a run of all of them checks them.
pub open spec fn every_property() -> Seq<Property> {
    seq![Property::DontPanicOnDrop, Property::SmallDictNoPanic, Property::DecompressShortInputNoPanic]
}

impl Property {
    /// The property that `name` names.
    pub fn from_name(name: &str) -> (r: Option<Property>)
        ensures
            r == property_named(name@),
    {
        if same_text(name, "DontPanicOnDrop") {
            Some(Property::DontPanicOnDrop)
        } else if same_text(name, "SmallDictNoPanic") {
            Some(Property::SmallDictNoPanic)
        } else if same_text(name, "DecompressShortInputNoPanic") {
            Some(Property::DecompressShortInputNoPanic)
        } else {
            None
        }
    }

    /// The property's name.
    pub fn name(&self) -> (r: &'static str)
        ensures
            r@ == property_name(*self),
    {
        match self {
            Property::DontPanicOnDrop => "DontPanicOnDrop",
            Property::SmallDictNoPanic => "SmallDictNoPanic",
            Property::DecompressShortInputNoPanic => "DecompressShortInputNoPanic",
        }
    }
}

/// Whether `name` selects every property.
pub fn is_all(name: &str) -> (r: bool)
    ensures
        r == names_all(name@),
{
    same_text(name, "All")
}

/// Every property, in the order in which a run of all of them checks them.
pub fn all_properties() -> (r: Vec<Property>)
    ensures
        r@ == every_property(),
{
    let r = vec![
        Property::DontPanicOnDrop,
        Property::SmallDictNoPanic,
        Property::DecompressShortInputNoPanic,
    ];
    assert(r@ =~= every_property());
    r
}

/// Each property is chosen by its own fixed name, and is named by it.
pub proof fn lemma_property_fixed_names()
    ensures
        property_named("DontPanicOnDrop"@) == Some(Property::DontPanicOnDrop),
        property_named("SmallDictNoPanic"@) == Some(Property::SmallDictNoPanic),
        property_named("DecompressShortInputNoPanic"@) == Some(
            Property::DecompressShortInputNoPanic,
        ),
        property_name(Property::DontPanicOnDrop) == "DontPanicOnDrop"@,
        property_name(Property::SmallDictNoPanic) == "SmallDictNoPanic"@,
        property_name(Property::DecompressShortInputNoPanic) == "DecompressShortInputNoPanic"@,
        names_all("All"@),
        property_named("All"@) is None,
{
    reveal_strlit("All");
    reveal_strlit("DontPanicOnDrop");
    reveal_strlit("SmallDictNoPanic");
    reveal_strlit("DecompressShortInputNoPanic");
    assert("All"@.len() == 3);
    assert("DontPanicOnDrop"@.len() == 15);
    assert("SmallDictNoPanic"@.len() == 16);
    assert("DecompressShortInputNoPanic"@.len() == 27);
}

/// Each tool is chosen by its own fixed name.
pub proof fn lemma_tool_fixed_names()
    ensures
        tool_named("etna"@) == Some(Tool::Etna),
        tool_named("proptest"@) == Some(Tool::Proptest),
        tool_named("quickcheck"@) == Some(Tool::Quickcheck),
        tool_named("crabcheck"@) == Some(Tool::Crabcheck),
        tool_named("hegel"@) == Some(Tool::Hegel),
{
    reveal_strlit("etna");
    reveal_strlit("proptest");
    reveal_strlit("quickcheck");
    reveal_strlit("crabcheck");
    reveal_strlit("hegel");
    assert("etna"@.len() == 4);
    assert("proptest"@.len() == 8);
    assert("quickcheck"@.len() == 10);
    assert("crabcheck"@.len() == 9);
    assert("hegel"@.len() == 5);
}

/// Each property is found again under its own name, and no property's
/// name selects every property.
pub proof fn lemma_property_names_roundtrip(p: Property)
    ensures
        property_named(property_name(p)) == Some(p),
        !names_all(property_name(p)),
{
    reveal_strlit("All");
    reveal_strlit("DontPanicOnDrop");
    reveal_strlit("SmallDictNoPanic");
    reveal_strlit("DecompressShortInputNoPanic");
    assert("All"@.len() == 3);
    assert("DontPanicOnDrop"@.len() == 15);
    assert("SmallDictNoPanic"@.len() == 16);
    assert("DecompressShortInputNoPanic"@.len() == 27);
}

} // verus!
