//! Named scene presets and the bundled asset each one loads.

use vstd::prelude::*;
use vstd::string::*;

verus! {

/// The bundled scenes the viewer can load.
#[derive(Clone, Copy, Debug, PartialEq, Eq, Structural)]
pub enum ScenePreset {
    StanfordBunny,
    ChineseDragon,
}

impl ScenePreset {
    /// The file name of the preset's bundled asset.
    pub fn model_name(&self) -> (r: String)
        ensures
            *self == ScenePreset::StanfordBunny ==> r@ == "stanford_bunny.glb"@,
            *self == ScenePreset::ChineseDragon ==> r@ == "dragon.glb"@,
    {
        match self {
            ScenePreset::StanfordBunny => "stanford_bunny.glb".to_owned(),
            ScenePreset::ChineseDragon => "dragon.glb".to_owned(),
        }
    }

    /// The preset a query parameter selects: `2024` names the dragon and
    /// any other or absent value falls back to the bunny (which `2023`
    /// also names explicitly).
    pub fn from_query(value: Option<&str>) -> (r: ScenePreset)
        ensures
            r == (if value is Some && value->Some_0@ == "2024"@ {
                ScenePreset::ChineseDragon
            } else {
                ScenePreset::StanfordBunny
            }),
    {
        let s = match value {
            Some(s) => s,
            None => {
                return ScenePreset::StanfordBunny;
            },
        };
        proof {
            reveal_strlit("2024");
        }
        if s.unicode_len() == 4 && s.get_char(0) == '2' && s.get_char(1) == '0' && s.get_char(2)
            == '2' && s.get_char(3) == '4' {
            proof {
                assert(s@ =~= "2024"@);
            }
            ScenePreset::ChineseDragon
        } else {
            ScenePreset::StanfordBunny
        }
    }
}

impl Default for ScenePreset {
    /// The preset used when no query parameter selects another.
    fn default() -> (r: Self)
        ensures
            r == ScenePreset::StanfordBunny,
    {
        ScenePreset::StanfordBunny
    }
}

} // verus!
