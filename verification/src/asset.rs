use vstd::prelude::*;

verus! {

/// The view of an asset's file name: its characters.
pub type NameView = Seq<char>;

/// Something the asset store can hold. Its file name is treated as its
/// identity: two assets of one type must not share a file name.
pub trait Asset {
    /// The file name of this asset, as a sequence of characters.
    spec fn name_view(&self) -> NameView;

    /// The file name, the same every time it is asked for.
    fn file_name(&self) -> (r: &str)
        ensures
            r@ == self.name_view(),
    ;
}

} // verus!
