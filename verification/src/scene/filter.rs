use vstd::prelude::*;
use super::sorting::NodeFlags;

verus! {

/// The kinds of content a scene node can hold.
#[derive(Clone, Copy, PartialEq, Eq, Structural, Debug)]
pub enum ContentKind {
    Renderable,
    Mesh,
    PointLight,
    DirectionalLight,
    SpotLight,
    Empty,
    Camera,
}

/// A set of content kinds, one flag per kind.
#[derive(Clone, Copy, PartialEq, Eq, Structural, Debug)]
pub struct ValueTypeBool {
    pub render_able: bool,
    pub mesh: bool,
    pub point_light: bool,
    pub directional_light: bool,
    pub spot_light: bool,
    pub empty: bool,
    pub camera: bool,
}

/// Every kind set in `a` is set in `b` as well.
pub open spec fn part_of(a: ValueTypeBool, b: ValueTypeBool) -> bool {
    &&& a.render_able ==> b.render_able
    &&& a.mesh ==> b.mesh
    &&& a.point_light ==> b.point_light
    &&& a.directional_light ==> b.directional_light
    &&& a.spot_light ==> b.spot_light
    &&& a.empty ==> b.empty
    &&& a.camera ==> b.camera
}

/// The flags with only the flag of `kind` set.
pub open spec fn kind_flags(kind: ContentKind) -> ValueTypeBool {
    ValueTypeBool {
        render_able: kind == ContentKind::Renderable,
        mesh: kind == ContentKind::Mesh,
        point_light: kind == ContentKind::PointLight,
        directional_light: kind == ContentKind::DirectionalLight,
        spot_light: kind == ContentKind::SpotLight,
        empty: kind == ContentKind::Empty,
        camera: kind == ContentKind::Camera,
    }
}

impl ValueTypeBool {
    /// All flags set.
    pub fn all() -> (v: Self)
        ensures
            v == (ValueTypeBool {
                render_able: true,
                mesh: true,
                point_light: true,
                directional_light: true,
                spot_light: true,
                empty: true,
                camera: true,
            }),
    {
        ValueTypeBool {
            render_able: true,
            mesh: true,
            point_light: true,
            directional_light: true,
            spot_light: true,
            empty: true,
            camera: true,
        }
    }

    /// No flag set.
    pub fn none() -> (v: Self)
        ensures
            v == (ValueTypeBool {
                render_able: false,
                mesh: false,
                point_light: false,
                directional_light: false,
                spot_light: false,
                empty: false,
                camera: false,
            }),
    {
        ValueTypeBool {
            render_able: false,
            mesh: false,
            point_light: false,
            directional_light: false,
            spot_light: false,
            empty: false,
            camera: false,
        }
    }

    /// The flags of one content kind.
    pub fn of_kind(kind: ContentKind) -> (v: Self)
        ensures
            v == kind_flags(kind),
    {
        let mut v = ValueTypeBool::none();
        match kind {
            ContentKind::Renderable => v.render_able = true,
            ContentKind::Mesh => v.mesh = true,
            ContentKind::PointLight => v.point_light = true,
            ContentKind::DirectionalLight => v.directional_light = true,
            ContentKind::SpotLight => v.spot_light = true,
            ContentKind::Empty => v.empty = true,
            ContentKind::Camera => v.camera = true,
        }
        v
    }

    /// Returns true if `self` is part of `other`: every kind set in `self` is set in
    /// `other` as well.
    pub fn is_part_of(&self, other: &ValueTypeBool) -> (r: bool)
        ensures
            r == part_of(*self, *other),
    {
        if self.render_able && !other.render_able {
            return false;
        }
        if self.mesh && !other.mesh {
            return false;
        }
        if self.point_light && !other.point_light {
            return false;
        }
        if self.spot_light && !other.spot_light {
            return false;
        }
        if self.directional_light && !other.directional_light {
            return false;
        }
        if self.empty && !other.empty {
            return false;
        }
        if self.camera && !other.camera {
            return false;
        }
        true
    }

    pub fn with_render_able(self) -> (v: Self)
        ensures
            v == (ValueTypeBool { render_able: true, ..self }),
    {
        ValueTypeBool { render_able: true, ..self }
    }

    pub fn with_mesh(self) -> (v: Self)
        ensures
            v == (ValueTypeBool { mesh: true, ..self }),
    {
        ValueTypeBool { mesh: true, ..self }
    }

    pub fn with_point_light(self) -> (v: Self)
        ensures
            v == (ValueTypeBool { point_light: true, ..self }),
    {
        ValueTypeBool { point_light: true, ..self }
    }

    pub fn with_directional_light(self) -> (v: Self)
        ensures
            v == (ValueTypeBool { directional_light: true, ..self }),
    {
        ValueTypeBool { directional_light: true, ..self }
    }

    pub fn with_spot_light(self) -> (v: Self)
        ensures
            v == (ValueTypeBool { spot_light: true, ..self }),
    {
        ValueTypeBool { spot_light: true, ..self }
    }

    pub fn with_empty(self) -> (v: Self)
        ensures
            v == (ValueTypeBool { empty: true, ..self }),
    {
        ValueTypeBool { empty: true, ..self }
    }

    pub fn with_camera(self) -> (v: Self)
        ensures
            v == (ValueTypeBool { camera: true, ..self }),
    {
        ValueTypeBool { camera: true, ..self }
    }
}

/// What a scene query asks of the flags and the content of a node. Each `Some`
/// has to match; `None` matches everything.
#[derive(Clone, Copy, PartialEq, Eq, Structural, Debug)]
pub struct SceneComparer {
    /// The content of the node should be of these kinds.
    pub value_type: Option<ValueTypeBool>,
    /// The shadow flag of the node.
    pub cast_shadow: Option<bool>,
    /// The transparency flag of the node.
    pub is_transparent: Option<bool>,
    /// The hide flag of the node.
    pub hide_in_game: Option<bool>,
    /// Whether the object emits light.
    pub is_emessive: Option<bool>,
}

/// An optional requirement on a flag holds.
pub open spec fn flag_matches(wanted: Option<bool>, flag: bool) -> bool {
    match wanted {
        Some(w) => w == flag,
        None => true,
    }
}

/// The flags of a node meet the flag requirements of a comparer (the emission
/// requirement is not checked).
pub open spec fn flags_match_spec(flags: NodeFlags, comp: SceneComparer) -> bool {
    &&& flag_matches(comp.cast_shadow, flags.cast_shadow)
    &&& flag_matches(comp.is_transparent, flags.is_transparent)
    &&& flag_matches(comp.hide_in_game, flags.hide_in_game)
}

/// The content kind of a node meets the value type requirement of a comparer: the
/// kind is one of the requested kinds.
pub open spec fn kind_matches_spec(kind: ContentKind, comp: SceneComparer) -> bool {
    match comp.value_type {
        Some(vt) => part_of(kind_flags(kind), vt),
        None => true,
    }
}

impl SceneComparer {
    /// A comparer with only `None`s.
    pub fn new() -> (c: Self)
        ensures
            c == (SceneComparer {
                value_type: None,
                cast_shadow: None,
                is_transparent: None,
                hide_in_game: None,
                is_emessive: None,
            }),
    {
        SceneComparer {
            value_type: None,
            cast_shadow: None,
            is_transparent: None,
            hide_in_game: None,
            is_emessive: None,
        }
    }

    /// Asks for content of the given kinds.
    pub fn with_value_type(self, value_type: ValueTypeBool) -> (c: Self)
        ensures
            c == (SceneComparer { value_type: Some(value_type), ..self }),
    {
        SceneComparer { value_type: Some(value_type), ..self }
    }

    /// Asks for nodes that cast shadows.
    pub fn with_shadows(self) -> (c: Self)
        ensures
            c == (SceneComparer { cast_shadow: Some(true), ..self }),
    {
        SceneComparer { cast_shadow: Some(true), ..self }
    }

    /// Asks for nodes that cast no shadows.
    pub fn without_shadows(self) -> (c: Self)
        ensures
            c == (SceneComparer { cast_shadow: Some(false), ..self }),
    {
        SceneComparer { cast_shadow: Some(false), ..self }
    }

    /// Asks for transparent nodes.
    pub fn with_transparency(self) -> (c: Self)
        ensures
            c == (SceneComparer { is_transparent: Some(true), ..self }),
    {
        SceneComparer { is_transparent: Some(true), ..self }
    }

    /// Asks for nodes that are not transparent.
    pub fn without_transparency(self) -> (c: Self)
        ensures
            c == (SceneComparer { is_transparent: Some(false), ..self }),
    {
        SceneComparer { is_transparent: Some(false), ..self }
    }

    /// Asks for nodes hidden in game.
    pub fn with_is_hidden(self) -> (c: Self)
        ensures
            c == (SceneComparer { hide_in_game: Some(true), ..self }),
    {
        SceneComparer { hide_in_game: Some(true), ..self }
    }

    /// Asks for nodes that are not hidden in game.
    pub fn without_is_hidden(self) -> (c: Self)
        ensures
            c == (SceneComparer { hide_in_game: Some(false), ..self }),
    {
        SceneComparer { hide_in_game: Some(false), ..self }
    }

    /// Asks for objects that emit light.
    pub fn with_is_emessive(self) -> (c: Self)
        ensures
            c == (SceneComparer { is_emessive: Some(true), ..self }),
    {
        SceneComparer { is_emessive: Some(true), ..self }
    }

    /// Asks for objects that emit no light.
    pub fn without_is_emessive(self) -> (c: Self)
        ensures
            c == (SceneComparer { is_emessive: Some(false), ..self }),
    {
        SceneComparer { is_emessive: Some(false), ..self }
    }
}

fn matches_flag(wanted: Option<bool>, flag: bool) -> (r: bool)
    ensures
        r == flag_matches(wanted, flag),
{
    match wanted {
        Some(w) => w == flag,
        None => true,
    }
}

/// The flag part of comparing node attributes with a comparer: every requested flag
/// has to be equal to the node's flag.
pub fn flags_match(flags: &NodeFlags, comp: &SceneComparer) -> (r: bool)
    ensures
        r == flags_match_spec(*flags, *comp),
{
    if !matches_flag(comp.cast_shadow, flags.cast_shadow) {
        return false;
    }
    if !matches_flag(comp.is_transparent, flags.is_transparent) {
        return false;
    }
    if !matches_flag(comp.hide_in_game, flags.hide_in_game) {
        return false;
    }
    true
}

/// Whether a node is selected by an optional comparer. Without a comparer every node
/// is. With one, the node's attributes have to match it (`attributes_match` is the
/// result of comparing the transform and bound requirements, `flags` are compared
/// here) and its content kind has to match the requested value type.
pub fn node_matches(
    attributes_match: bool,
    flags: &NodeFlags,
    kind: ContentKind,
    sorting: &Option<SceneComparer>,
) -> (r: bool)
    ensures
        r == match sorting {
            Some(comp) => attributes_match && flags_match_spec(*flags, *comp) && kind_matches_spec(
                kind,
                *comp,
            ),
            None => true,
        },
{
    match sorting {
        Some(comp) => {
            if !attributes_match || !flags_match(flags, comp) {
                return false;
            }
            match comp.value_type {
                Some(vt) => {
                    let kind_bool = ValueTypeBool::of_kind(kind);
                    kind_bool.is_part_of(&vt)
                },
                None => true,
            }
        },
        None => true,
    }
}

/// A node passes the value type requirement of a comparer exactly when the
/// requested flag of its own kind is set: a mesh needs `mesh`, a directional light
/// `directional_light`, and so on; flags of other kinds do not let it pass.
pub proof fn law_kind_passes_by_its_own_flag(kind: ContentKind, vt: ValueTypeBool)
    ensures
        forall|comp: SceneComparer|
            comp.value_type == Some(vt) ==> kind_matches_spec(kind, comp) == match kind {
                ContentKind::Renderable => vt.render_able,
                ContentKind::Mesh => vt.mesh,
                ContentKind::PointLight => vt.point_light,
                ContentKind::DirectionalLight => vt.directional_light,
                ContentKind::SpotLight => vt.spot_light,
                ContentKind::Empty => vt.empty,
                ContentKind::Camera => vt.camera,
            },
{
}

} // verus!
