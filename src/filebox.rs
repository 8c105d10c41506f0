use vstd::prelude::*;

verus! {

/// A file attachment handle. It carries no content yet.
pub struct FileBox {}

impl FileBox {
    /// The textual form of the file box, empty while it carries no content.
    pub fn to_string(&self) -> (r: String)
        ensures
            r@ == Seq::<char>::empty(),
    {
        String::new()
    }
}

impl From<String> for FileBox {
    fn from(s: String) -> (r: FileBox) {
        FileBox {}
    }
}

impl vstd::std_specs::convert::FromSpecImpl<String> for FileBox {
    open spec fn obeys_from_spec() -> bool {
        true
    }

    open spec fn from_spec(v: String) -> FileBox {
        FileBox {}
    }
}

} // verus!
