//! Keys of texture images.
use vstd::prelude::*;
use crate::view::Text;

verus! {

/// Key of a texture image: the path of the file that holds it.
#[derive(Debug, Eq, Hash, PartialEq)]
pub struct TextureKey(pub String);

impl View for TextureKey {
    type V = Text;

    open spec fn view(&self) -> Text {
        self.0@
    }
}

impl Clone for TextureKey {
    fn clone(&self) -> (res: Self)
        ensures
            res@ == self@,
    {
        TextureKey(self.0.clone())
    }
}

impl TextureKey {
    /// Creates a texture key from the path of the image.
    pub fn new(key: &str) -> (res: Self)
        ensures
            res@ == key@,
    {
        TextureKey(key.to_owned())
    }

    /// Path of the file that holds the image: the key itself.
    pub fn key_to_path(&self) -> (path: String)
        ensures
            path@ == self@,
    {
        self.0.clone()
    }
}

impl<'a> From<&'a str> for TextureKey {
    fn from(key: &'a str) -> (res: Self)
        ensures
            res@ == key@,
    {
        TextureKey::new(key)
    }
}

/// The key made from a path is known by its view only, so no key is named here as the one
/// that `from` gives.
impl<'a> vstd::std_specs::convert::FromSpecImpl<&'a str> for TextureKey {
    open spec fn obeys_from_spec() -> bool {
        false
    }

    open spec fn from_spec(key: &'a str) -> Self {
        arbitrary()
    }
}

} // verus!
