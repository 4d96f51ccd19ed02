use vstd::prelude::*;
use crate::domain::Layer;
use crate::state::AppState;

verus! {

/// `j` is the first position of a layer named `name`.
pub open spec fn first_layer_named<C>(layers: Seq<Layer<C>>, name: Seq<char>, j: int) -> bool {
    &&& 0 <= j < layers.len()
    &&& layers[j].name@ == name
    &&& forall|k: int| 0 <= k < j ==> layers[k].name@ != name
}

/// No layer is named `name`.
pub open spec fn no_layer_named<C>(layers: Seq<Layer<C>>, name: Seq<char>) -> bool {
    forall|k: int| 0 <= k < layers.len() ==> layers[k].name@ != name
}

/// How the layers decide the display of an entity.
#[derive(Debug, Clone, Copy, PartialEq, Eq, Structural)]
pub enum LayerStyle {
    /// The entity's layer is hidden.
    Hidden,
    /// The entity is drawn in the colour of the layer at this index.
    Layer(usize),
    /// No layer has the entity's layer name: the default colour applies.
    NoLayer,
}

/// How an entity is drawn on screen.
#[derive(Debug, Clone, Copy, PartialEq, Eq, Structural)]
pub enum EntityStyle {
    /// The entity's layer is hidden.
    Hidden,
    /// The entity is selected and drawn in the selection colour.
    Selected,
    /// The entity is drawn in the colour of the layer at this index.
    Layer(usize),
    /// No layer has the entity's layer name: the default colour applies.
    NoLayer,
}

/// The first position of a layer named `name`, if any.
pub fn find_layer<C>(layers: &Vec<Layer<C>>, name: &String) -> (res: Option<usize>)
    ensures
        res matches Some(j) ==> first_layer_named(layers@, name@, j as int),
        res is None ==> no_layer_named(layers@, name@),
{
    let mut j: usize = 0;
    while j < layers.len()
        invariant
            j <= layers.len(),
            forall|k: int| 0 <= k < j ==> layers@[k].name@ != name@,
        decreases layers.len() - j,
    {
        if layers[j].name == *name {
            return Some(j);
        }
        j = j + 1;
    }
    None
}

impl<G, C, P, S> AppState<G, C, P, S> {
    /// How the layers decide the display of entity `index`, for printing:
    /// the first layer named as the entity's layer gives the colour, unless
    /// it is hidden.
    pub fn layer_style(&self, index: usize) -> (res: LayerStyle)
        requires
            index < self.entities.len(),
        ensures
            ({
                let layers = self@.layers;
                let name = self@.entities[index as int].layer@;
                match res {
                    LayerStyle::Hidden => exists|j: int|
                        first_layer_named(layers, name, j) && !#[trigger] layers[j].visible,
                    LayerStyle::Layer(j) => first_layer_named(layers, name, j as int)
                        && layers[j as int].visible,
                    LayerStyle::NoLayer => no_layer_named(layers, name),
                }
            }),
    {
        match find_layer(&self.layers, &self.entities[index].layer) {
            Some(j) => if self.layers[j].visible {
                LayerStyle::Layer(j)
            } else {
                assert(first_layer_named(self@.layers, self@.entities[index as int].layer@, j as int)
                    && !self@.layers[j as int].visible);
                LayerStyle::Hidden
            },
            None => LayerStyle::NoLayer,
        }
    }

    /// How entity `index` is drawn on screen: entities on a hidden layer
    /// are not drawn; selected entities are highlighted; the others take
    /// the colour of their layer, or the default colour without one.
    pub fn entity_style(&self, index: usize) -> (res: EntityStyle)
        requires
            index < self.entities.len(),
        ensures
            ({
                let layers = self@.layers;
                let name = self@.entities[index as int].layer@;
                let selected = self@.selected_indices.contains(index);
                let hidden = exists|j: int|
                    first_layer_named(layers, name, j) && !#[trigger] layers[j].visible;
                match res {
                    EntityStyle::Hidden => hidden,
                    EntityStyle::Selected => !hidden && selected,
                    EntityStyle::Layer(j) => !selected && first_layer_named(layers, name, j as int)
                        && layers[j as int].visible,
                    EntityStyle::NoLayer => !selected && no_layer_named(layers, name),
                }
            }),
    {
        let by_layer = self.layer_style(index);
        if by_layer == LayerStyle::Hidden {
            return EntityStyle::Hidden;
        }
        let mut selected = false;
        let mut k: usize = 0;
        while k < self.selected_indices.len()
            invariant
                k <= self.selected_indices.len(),
                selected == self@.selected_indices.subrange(0, k as int).contains(index),
            decreases self.selected_indices.len() - k,
        {
            broadcast use vstd::seq_lib::group_seq_properties;
            assert(self@.selected_indices.subrange(0, k + 1) =~= self@.selected_indices.subrange(
                0,
                k as int,
            ).push(self@.selected_indices[k as int]));
            if self.selected_indices[k] == index {
                selected = true;
            }
            k = k + 1;
        }
        proof {
            let ghost name = self@.entities[index as int].layer@;
            assert(self@.selected_indices.subrange(0, k as int) =~= self@.selected_indices);
            if exists|j: int| first_layer_named(self@.layers, name, j) && !#[trigger] self@.layers[j].visible {
                let j = choose|j: int| first_layer_named(self@.layers, name, j) && !#[trigger] self@.layers[j].visible;
                match by_layer {
                    LayerStyle::Layer(j2) => {
                        assert(j == j2);
                    },
                    LayerStyle::NoLayer => {
                        assert(self@.layers[j].name@ == name);
                    },
                    LayerStyle::Hidden => {},
                }
            }
        }
        if selected {
            EntityStyle::Selected
        } else {
            match by_layer {
                LayerStyle::Layer(j) => EntityStyle::Layer(j),
                _ => EntityStyle::NoLayer,
            }
        }
    }

    /// The name of the active layer.
    pub fn active_layer_name(&self) -> (res: String)
        requires
            self.active_layer_index < self.layers.len(),
        ensures
            res@ == self@.layers[self.active_layer_index as int].name@,
    {
        self.layers[self.active_layer_index].name.clone()
    }

    /// An identifier for a new entity: one more than the largest
    /// identifier in use, or 1 when there is no entity; `None` when the
    /// largest identifier is `u64::MAX`.
    pub fn next_entity_id(&self) -> (res: Option<u64>)
        ensures
            res matches Some(id) ==> {
                &&& forall|k: int| 0 <= k < self@.entities.len() ==> #[trigger] self@.entities[k].id < id
                &&& (id == 1 || exists|k: int| 0 <= k < self@.entities.len() && #[trigger] self@.entities[k].id == id - 1)
            },
            res is None ==> exists|k: int| 0 <= k < self@.entities.len()
                && #[trigger] self@.entities[k].id == u64::MAX,
    {
        let mut largest: u64 = 0;
        let mut k: usize = 0;
        while k < self.entities.len()
            invariant
                k <= self.entities.len(),
                forall|m: int| 0 <= m < k ==> #[trigger] self@.entities[m].id <= largest,
                largest == 0 || exists|m: int| 0 <= m < k && #[trigger] self@.entities[m].id == largest,
            decreases self.entities.len() - k,
        {
            if self.entities[k].id > largest {
                largest = self.entities[k].id;
            }
            k = k + 1;
        }
        if largest == u64::MAX {
            None
        } else {
            Some(largest + 1)
        }
    }
}

} // verus!
