//! The per-type configuration schema the layout protocol consumes.
//!
//! A declarative front-end (outside this crate) turns per-type
//! annotations into this fixed schema: the declared representation and
//! layout mode, whether the type opts into copy-style optimization,
//! derived comparison behaviors, bound overrides for the serialize and
//! deserialize type parameters, and custom names for the archived and
//! resolver types. This crate does not parse annotation syntax; it only
//! defines the schema and the reading of the declared layout mode.

use vstd::prelude::*;

verus! {

/// The declared representation of a type: which representation markers
/// its definition carries, at most one of which is in force.
pub struct Repr {
    /// The native representation marker.
    pub rust: bool,
    /// The transparent single-field representation marker.
    pub transparent: bool,
    /// The packed, padding-free representation marker.
    pub packed: bool,
    /// The explicit fixed-order representation marker.
    pub c: bool,
    /// An explicit integer-width representation, by the width's name.
    pub int: Option<String>,
}

/// The layout mode a declared representation selects.
#[derive(Clone, Copy, Debug, PartialEq, Eq, Structural)]
pub enum LayoutMode {
    /// No marker in force: the native layout.
    Native,
    /// The transparent single-field layout.
    Transparent,
    /// The packed, padding-free layout.
    Packed,
    /// The explicit fixed-order layout.
    ExplicitFixed,
    /// An explicit integer-width layout for the discriminant.
    ExplicitInt,
}

impl Repr {
    /// The layout mode this representation selects. At most one marker
    /// is expected to be set; when several are, the more specific one
    /// wins, in the order transparent, packed, integer width, fixed.
    pub open spec fn mode_spec(&self) -> LayoutMode {
        if self.transparent {
            LayoutMode::Transparent
        } else if self.packed {
            LayoutMode::Packed
        } else if self.int is Some {
            LayoutMode::ExplicitInt
        } else if self.c {
            LayoutMode::ExplicitFixed
        } else {
            LayoutMode::Native
        }
    }

    /// Returns the layout mode this representation selects.
    pub fn mode(&self) -> (r: LayoutMode)
        ensures
            r == self.mode_spec(),
    {
        if self.transparent {
            LayoutMode::Transparent
        } else if self.packed {
            LayoutMode::Packed
        } else if self.int.is_some() {
            LayoutMode::ExplicitInt
        } else if self.c {
            LayoutMode::ExplicitFixed
        } else {
            LayoutMode::Native
        }
    }
}

impl Default for Repr {
    /// The empty representation: no marker set, the native layout.
    fn default() -> (r: Repr)
        ensures
            !r.rust,
            !r.transparent,
            !r.packed,
            !r.c,
            r.int is None,
            r.mode_spec() == LayoutMode::Native,
    {
        Repr { rust: false, transparent: false, packed: false, c: false, int: None }
    }
}

/// The full per-type configuration: everything the front-end supplies
/// about one type, gathered into one explicit value.
pub struct Attributes {
    /// The type opts into copy-style optimization.
    pub copy: bool,
    /// The declared representation.
    pub repr: Repr,
    /// Behaviors to derive on the archived type, by name.
    pub derives: Option<Vec<String>>,
    /// Comparison behaviors to bridge across representations, by name.
    pub compares: Option<Vec<String>>,
    /// An override for the serialize bound.
    pub serialize_bound: Option<String>,
    /// An override for the deserialize bound.
    pub deserialize_bound: Option<String>,
    /// A custom name for the archived type.
    pub archived: Option<String>,
    /// A custom name for the resolver type.
    pub resolver: Option<String>,
    /// The type opts into the fully explicit, compiler-independent
    /// layout policy.
    pub strict: bool,
}

impl Default for Attributes {
    /// The empty configuration: nothing declared, every option unset.
    fn default() -> (r: Attributes)
        ensures
            !r.copy,
            r.repr.mode_spec() == LayoutMode::Native,
            r.derives is None,
            r.compares is None,
            r.serialize_bound is None,
            r.deserialize_bound is None,
            r.archived is None,
            r.resolver is None,
            !r.strict,
    {
        Attributes {
            copy: false,
            repr: Repr::default(),
            derives: None,
            compares: None,
            serialize_bound: None,
            deserialize_bound: None,
            archived: None,
            resolver: None,
            strict: false,
        }
    }
}

} // verus!
