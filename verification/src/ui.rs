use vstd::prelude::*;

verus! {

/// Builds the user-interface entities of the game.
pub struct UIBuilder;

impl UIBuilder {
    /// The images the user interface draws: the game icon.
    pub fn get_sprite_paths() -> (r: Vec<String>)
        ensures
            r@.len() == 1,
            r@[0]@ == "/icon.png"@,
    {
        let mut paths: Vec<String> = Vec::new();
        paths.push("/icon.png".to_owned());
        paths
    }
}

} // verus!
