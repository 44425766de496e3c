use vstd::prelude::*;

verus! {

/// The drawing layers, back to front.
#[derive(Debug, Clone, Copy, PartialEq, Eq, Structural)]
pub enum SpriteLayer {
    BG,
    BGNear,
    World,
    Entities,
    PlayerBehind,
    Player,
    PlayerFront,
    UI,
}

/// The depth a layer is drawn at: larger is nearer the front.
pub open spec fn layer_depth(layer: SpriteLayer) -> i32 {
    match layer {
        SpriteLayer::BG => 0,
        SpriteLayer::BGNear => 50,
        SpriteLayer::World => 100,
        SpriteLayer::Entities => 300,
        SpriteLayer::PlayerBehind => 490,
        SpriteLayer::Player => 500,
        SpriteLayer::PlayerFront => 510,
        SpriteLayer::UI => 1000,
    }
}

impl SpriteLayer {
    /// The depth the layer is drawn at.
    pub fn to_z(&self) -> (r: i32)
        ensures
            r == layer_depth(*self),
    {
        match self {
            SpriteLayer::BG => 0,
            SpriteLayer::BGNear => 50,
            SpriteLayer::World => 100,
            SpriteLayer::Entities => 300,
            SpriteLayer::PlayerBehind => 490,
            SpriteLayer::Player => 500,
            SpriteLayer::PlayerFront => 510,
            SpriteLayer::UI => 1000,
        }
    }
}

/// The layers are drawn in the order they are listed: each lies in front
/// of the ones before it, with the player between what is behind and in
/// front of it.
pub proof fn law_layers_ordered()
    ensures
        layer_depth(SpriteLayer::BG) < layer_depth(SpriteLayer::BGNear),
        layer_depth(SpriteLayer::BGNear) < layer_depth(SpriteLayer::World),
        layer_depth(SpriteLayer::World) < layer_depth(SpriteLayer::Entities),
        layer_depth(SpriteLayer::Entities) < layer_depth(SpriteLayer::PlayerBehind),
        layer_depth(SpriteLayer::PlayerBehind) < layer_depth(SpriteLayer::Player),
        layer_depth(SpriteLayer::Player) < layer_depth(SpriteLayer::PlayerFront),
        layer_depth(SpriteLayer::PlayerFront) < layer_depth(SpriteLayer::UI),
{
}


/// The shader files and blend modes of a sprite's shader.
#[derive(Debug, Clone)]
pub struct ShaderConfig {
    pub vert_path: String,
    pub frag_path: String,
    pub blend_modes: Vec<String>,
}

impl Default for ShaderConfig {
    fn default() -> (r: Self)
        ensures
            r.vert_path@ == Seq::<char>::empty(),
            r.frag_path@ == Seq::<char>::empty(),
            r.blend_modes@.len() == 0,
    {
        ShaderConfig { vert_path: String::new(), frag_path: String::new(), blend_modes: Vec::new() }
    }
}

/// A ball's image and whether it flashes.
#[derive(Debug, Clone)]
pub struct BallDisplayComponent {
    pub path: String,
    pub flash: bool,
}

impl BallDisplayComponent {
    /// A ball drawn from `char_img`.
    pub fn new(char_img: &String, flash: bool) -> (r: BallDisplayComponent)
        ensures
            r.path@ == char_img@,
            r.flash == flash,
    {
        BallDisplayComponent { path: char_img.clone(), flash }
    }
}

} // verus!
