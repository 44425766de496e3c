use vstd::prelude::*;

verus! {

/// The kinds of component that an entity asks to be updated as.
#[derive(Debug, Clone, Copy, PartialEq, Eq, Structural)]
pub enum EventFlagType {
    Sprite,
    MultiSprite,
    AnimSprite,
    Character,
    ParticleSys,
    Unimplemented,
}

/// The event kinds an entity takes part in.
#[derive(Debug, Clone)]
pub struct EventsFlag {
    pub layers: Vec<EventFlagType>,
}

/// The screen layers that a drawable belongs to.
#[derive(Debug, Clone, Copy, PartialEq, Eq, Structural)]
pub enum RenderLayerType {
    WindowBackground,
    LevelLayer,
    DialogLayer,
    PausedLayer,
    UILayer,
}

/// The kinds of component that draw an entity.
#[derive(Debug, Clone, Copy, PartialEq, Eq, Structural)]
pub enum RenderFlagType {
    Sprite,
    MultiSprite,
    AnimSprite,
    ParallaxSprite,
    Character,
    ParticleSys,
    Unimplemented,
}

impl Default for RenderFlagType {
    fn default() -> (r: Self)
        ensures
            r == RenderFlagType::Unimplemented,
    {
        RenderFlagType::Unimplemented
    }
}

/// The screen layers an entity is drawn in.
#[derive(Debug, Clone)]
pub struct RenderFlag {
    pub layers: Vec<RenderLayerType>,
}

/// Whether `t` occurs in `layers`, by a walk over them.
fn event_layer_listed(layers: &Vec<EventFlagType>, t: EventFlagType) -> (r: bool)
    ensures
        r == layers@.contains(t),
{
    let mut i: usize = 0;
    while i < layers.len()
        invariant
            i <= layers.len(),
            forall|j: int| 0 <= j < i ==> layers@[j] != t,
        decreases layers.len() - i,
    {
        if layers[i] == t {
            return true;
        }
        i += 1;
    }
    false
}

/// Whether `t` occurs in `layers`, by a walk over them.
fn render_layer_listed(layers: &Vec<RenderLayerType>, t: RenderLayerType) -> (r: bool)
    ensures
        r == layers@.contains(t),
{
    let mut i: usize = 0;
    while i < layers.len()
        invariant
            i <= layers.len(),
            forall|j: int| 0 <= j < i ==> layers@[j] != t,
        decreases layers.len() - i,
    {
        if layers[i] == t {
            return true;
        }
        i += 1;
    }
    false
}

impl EventsFlag {
    /// Whether the entity takes part in events of kind `layer_type`.
    pub fn in_layer(&self, layer_type: EventFlagType) -> (r: bool)
        ensures
            r == self.layers@.contains(layer_type),
    {
        event_layer_listed(&self.layers, layer_type)
    }

    /// A flag for one event kind.
    pub fn from_layer(layer_type: EventFlagType) -> (r: Self)
        ensures
            r.layers@ == seq![layer_type],
    {
        EventsFlag { layers: vec![layer_type] }
    }

    /// A flag for the event kinds listed, in their order.
    pub fn from_layers(layer_types: &Vec<EventFlagType>) -> (r: Self)
        ensures
            r.layers@ == layer_types@,
    {
        let mut layers_copy: Vec<EventFlagType> = Vec::new();
        let mut i: usize = 0;
        while i < layer_types.len()
            invariant
                i <= layer_types.len(),
                layers_copy@ == layer_types@.take(i as int),
            decreases layer_types.len() - i,
        {
            layers_copy.push(layer_types[i]);
            i += 1;
            assert(layers_copy@ =~= layer_types@.take(i as int));
        }
        assert(layer_types@.take(i as int) =~= layer_types@);
        EventsFlag { layers: layers_copy }
    }
}

impl Default for EventsFlag {
    fn default() -> (r: Self)
        ensures
            r.layers@ == Seq::<EventFlagType>::empty(),
    {
        EventsFlag { layers: Vec::new() }
    }
}

impl RenderFlag {
    /// Whether the entity is drawn in layer `layer_type`.
    pub fn in_layer(&self, layer_type: RenderLayerType) -> (r: bool)
        ensures
            r == self.layers@.contains(layer_type),
    {
        render_layer_listed(&self.layers, layer_type)
    }

    /// A flag for one layer.
    pub fn from_layer(layer_type: RenderLayerType) -> (r: Self)
        ensures
            r.layers@ == seq![layer_type],
    {
        RenderFlag { layers: vec![layer_type] }
    }

    /// A flag for the layers listed, in their order.
    pub fn from_layers(layer_types: &Vec<RenderLayerType>) -> (r: Self)
        ensures
            r.layers@ == layer_types@,
    {
        let mut layers_copy: Vec<RenderLayerType> = Vec::new();
        let mut i: usize = 0;
        while i < layer_types.len()
            invariant
                i <= layer_types.len(),
                layers_copy@ == layer_types@.take(i as int),
            decreases layer_types.len() - i,
        {
            layers_copy.push(layer_types[i]);
            i += 1;
            assert(layers_copy@ =~= layer_types@.take(i as int));
        }
        assert(layer_types@.take(i as int) =~= layer_types@);
        RenderFlag { layers: layers_copy }
    }
}

impl Default for RenderFlag {
    fn default() -> (r: Self)
        ensures
            r.layers@ == Seq::<RenderLayerType>::empty(),
    {
        RenderFlag { layers: Vec::new() }
    }
}

/// A flag built for one layer is in that layer and in no other.
pub proof fn law_single_layer(layer: RenderLayerType, other: RenderLayerType)
    ensures
        seq![layer].contains(other) <==> other == layer,
{
    if seq![layer].contains(other) {
        let k = choose|k: int| 0 <= k < 1 && seq![layer][k] == other;
        assert(k == 0);
    }
    if other == layer {
        assert(seq![layer][0] == other);
    }
}

/// A flag built for one event kind takes part in that kind and in no other.
pub proof fn law_single_event_kind(kind: EventFlagType, other: EventFlagType)
    ensures
        seq![kind].contains(other) <==> other == kind,
{
    if seq![kind].contains(other) {
        let k = choose|k: int| 0 <= k < 1 && seq![kind][k] == other;
        assert(k == 0);
    }
    if other == kind {
        assert(seq![kind][0] == other);
    }
}

} // verus!
