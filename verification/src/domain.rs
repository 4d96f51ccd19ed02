use vstd::prelude::*;

verus! {

/// A reference from a dimension to a point of another entity.
#[derive(Debug, Clone, Copy, PartialEq, Eq)]
pub struct DimensionAnchor {
    pub entity_id: u64,
    /// 0 for the start, 1 for the end, or a vertex index.
    pub point_index: usize,
}

/// A drawing layer. `C` is the colour representation chosen by the caller.
#[derive(Debug)]
pub struct Layer<C> {
    pub name: String,
    pub color: C,
    pub visible: bool,
    pub locked: bool,
}

impl<C> Layer<C> {
    /// A visible, unlocked layer with the given name and colour.
    pub fn new(name: &str, color: C) -> (res: Self)
        ensures
            res.name@ == name@,
            res.color == color,
            res.visible,
            !res.locked,
    {
        Layer { name: name.to_string(), color, visible: true, locked: false }
    }
}

/// Two layers that hold the same name, visibility and lock flag, and
/// colours one of which is a clone of the other.
pub open spec fn layer_cloned<C: Clone>(a: Layer<C>, b: Layer<C>) -> bool {
    &&& b.name@ == a.name@
    &&& cloned(a.color, b.color)
    &&& b.visible == a.visible
    &&& b.locked == a.locked
}

impl<C: Clone> Clone for Layer<C> {
    fn clone(&self) -> (res: Self)
        ensures
            layer_cloned(*self, res),
    {
        Layer {
            name: self.name.clone(),
            color: self.color.clone(),
            visible: self.visible,
            locked: self.locked,
        }
    }
}

/// A drawing entity: an identifier, a geometry of the caller's geometry
/// type `G`, the name of its layer and an optional colour of type `C`.
#[derive(Debug)]
pub struct Entity<G, C> {
    pub id: u64,
    pub geometry: G,
    pub layer: String,
    pub color_override: Option<C>,
}

impl<G, C> Entity<G, C> {
    /// An entity on layer `layer`, without colour override.
    pub fn new(id: u64, geometry: G, layer: &str) -> (res: Self)
        ensures
            res.id == id,
            res.geometry == geometry,
            res.layer@ == layer@,
            res.color_override is None,
    {
        Entity { id, geometry, layer: layer.to_string(), color_override: None }
    }
}

/// Two entities with the same identifier and layer name whose geometry
/// and colour override are clones.
pub open spec fn entity_cloned<G: Clone, C: Clone>(a: Entity<G, C>, b: Entity<G, C>) -> bool {
    &&& b.id == a.id
    &&& cloned(a.geometry, b.geometry)
    &&& b.layer@ == a.layer@
    &&& match (a.color_override, b.color_override) {
        (Some(x), Some(y)) => cloned(x, y),
        (None, None) => true,
        _ => false,
    }
}

impl<G: Clone, C: Clone> Clone for Entity<G, C> {
    fn clone(&self) -> (res: Self)
        ensures
            entity_cloned(*self, res),
    {
        let color_override = match &self.color_override {
            Some(c) => Some(c.clone()),
            None => None,
        };
        Entity {
            id: self.id,
            geometry: self.geometry.clone(),
            layer: self.layer.clone(),
            color_override,
        }
    }
}

} // verus!
