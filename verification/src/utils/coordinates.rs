//! Names of the texture images that a scene uses.

use vstd::prelude::*;

verus! {

/// The texture images of a scene, one path for each texture, in the order in
/// which the textures were named.
pub struct TexturePath {
    pub texture_paths: Vec<String>,
}

/// The text of each name, in order.
pub open spec fn texts_of(names: Seq<&str>) -> Seq<Seq<char>> {
    Seq::new(names.len(), |i: int| names[i]@)
}

impl View for TexturePath {
    type V = Seq<Seq<char>>;

    open spec fn view(&self) -> Seq<Seq<char>> {
        Seq::new(self.texture_paths@.len(), |i: int| self.texture_paths@[i]@)
    }
}

impl TexturePath {
    /// Records the textures named by `texture_names`. Each path is the name as
    /// it was given: a name is taken to be a path already, and nothing is put
    /// in front of it.
    pub fn new(texture_names: Vec<&str>) -> (result: Self)
        ensures
            result@ == texts_of(texture_names@),
            result.texture_paths@.len() == texture_names@.len(),
            forall|i: int|
                0 <= i < texture_names@.len() ==> (#[trigger] result.texture_paths@[i])@
                    == texture_names@[i]@,
    {
        let mut paths: Vec<String> = Vec::new();
        let mut i: usize = 0;
        while i < texture_names.len()
            invariant
                i <= texture_names@.len(),
                paths@.len() == i,
                forall|k: int| 0 <= k < i ==> (#[trigger] paths@[k])@ == texture_names@[k]@,
            decreases texture_names@.len() - i,
        {
            let tex = texture_names[i].to_owned();
            paths.push(tex);
            i += 1;
        }
        let result = TexturePath { texture_paths: paths };
        assert(result@ =~= texts_of(texture_names@));
        result
    }
}

} // verus!
