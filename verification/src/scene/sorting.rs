use vstd::prelude::*;

verus! {

/// The state a sort attribute can have.
/// - `Yes`: the node has to have this attribute set to `true`
/// - `No`: the node has to have this attribute set to `false`
/// - `Ignore`: it does not matter what the attribute is set to
#[derive(Clone, Copy, PartialEq, Eq, Structural, Debug)]
pub enum AttributeState {
    Yes,
    No,
    Ignore,
}

/// A flag satisfies an attribute state.
pub open spec fn satisfies(flag: bool, state: AttributeState) -> bool {
    match state {
        AttributeState::Yes => flag,
        AttributeState::No => !flag,
        AttributeState::Ignore => true,
    }
}

/// Describes which nodes of a tree are wanted, by their flags.
#[derive(Clone, Copy, PartialEq, Eq, Structural, Debug)]
pub struct SortAttributes {
    /// How to look at the shadow flag of the node.
    pub casts_shadow: AttributeState,
    /// How to look at the translucency flag of the node.
    pub is_translucent: AttributeState,
    /// How to look at the hide flag of the node.
    pub hide_in_game: AttributeState,
}

impl SortAttributes {
    /// All values are set to `Ignore`.
    pub fn new() -> (s: Self)
        ensures
            s == (SortAttributes {
                casts_shadow: AttributeState::Ignore,
                is_translucent: AttributeState::Ignore,
                hide_in_game: AttributeState::Ignore,
            }),
    {
        SortAttributes {
            casts_shadow: AttributeState::Ignore,
            is_translucent: AttributeState::Ignore,
            hide_in_game: AttributeState::Ignore,
        }
    }

    /// Sets the shadow attribute to `Yes`.
    pub fn casts_shadow(self) -> (s: Self)
        ensures
            s == (SortAttributes { casts_shadow: AttributeState::Yes, ..self }),
    {
        SortAttributes { casts_shadow: AttributeState::Yes, ..self }
    }

    /// Sets the shadow attribute to `No`.
    pub fn casts_no_shadow(self) -> (s: Self)
        ensures
            s == (SortAttributes { casts_shadow: AttributeState::No, ..self }),
    {
        SortAttributes { casts_shadow: AttributeState::No, ..self }
    }

    /// Sets the translucency attribute to `Yes`.
    pub fn is_translucent(self) -> (s: Self)
        ensures
            s == (SortAttributes { is_translucent: AttributeState::Yes, ..self }),
    {
        SortAttributes { is_translucent: AttributeState::Yes, ..self }
    }

    /// Sets the translucency attribute to `No`.
    pub fn is_not_translucent(self) -> (s: Self)
        ensures
            s == (SortAttributes { is_translucent: AttributeState::No, ..self }),
    {
        SortAttributes { is_translucent: AttributeState::No, ..self }
    }

    /// Sets the hide attribute to `Yes`.
    pub fn hidden_in_game(self) -> (s: Self)
        ensures
            s == (SortAttributes { hide_in_game: AttributeState::Yes, ..self }),
    {
        SortAttributes { hide_in_game: AttributeState::Yes, ..self }
    }

    /// Sets the hide attribute to `No`.
    pub fn not_hidden_in_game(self) -> (s: Self)
        ensures
            s == (SortAttributes { hide_in_game: AttributeState::No, ..self }),
    {
        SortAttributes { hide_in_game: AttributeState::No, ..self }
    }
}

/// The flags a node can have.
#[derive(Clone, Copy, PartialEq, Eq, Structural, Debug)]
pub struct NodeFlags {
    /// Can be turned off to disable shadow casting, useful for many small objects.
    pub cast_shadow: bool,
    /// Decides in which pass the object is rendered: opaque and masked objects first,
    /// transparent ones second.
    pub is_transparent: bool,
    /// If true the object is not rendered in game mode.
    pub hide_in_game: bool,
}

impl NodeFlags {
    /// Flags that cast shadows, are not transparent and are not hidden.
    pub fn new() -> (f: Self)
        ensures
            f == (NodeFlags { cast_shadow: true, is_transparent: false, hide_in_game: false }),
    {
        NodeFlags { cast_shadow: true, is_transparent: false, hide_in_game: false }
    }
}

fn satisfies_state(flag: bool, state: AttributeState) -> (r: bool)
    ensures
        r == satisfies(flag, state),
{
    match state {
        AttributeState::Yes => flag,
        AttributeState::No => !flag,
        AttributeState::Ignore => true,
    }
}

/// A node with these flags is wanted by `requirements`: every attribute that is not
/// ignored matches its flag.
pub fn should_be_added(flags: &NodeFlags, requirements: SortAttributes) -> (r: bool)
    ensures
        r == (satisfies(flags.cast_shadow, requirements.casts_shadow) && satisfies(
            flags.is_transparent,
            requirements.is_translucent,
        ) && satisfies(flags.hide_in_game, requirements.hide_in_game)),
{
    let mut should_be_added = true;
    if !satisfies_state(flags.cast_shadow, requirements.casts_shadow) {
        should_be_added = false;
    }
    if !satisfies_state(flags.is_transparent, requirements.is_translucent) {
        should_be_added = false;
    }
    if !satisfies_state(flags.hide_in_game, requirements.hide_in_game) {
        should_be_added = false;
    }
    should_be_added
}

} // verus!
