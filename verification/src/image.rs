//! The image pool: which entries of a directory listing are images, and the
//! order in which they will be shown.

use crate::text::same_text;
use vstd::prelude::*;

verus! {

/// The extension of a path as `std::path::Path::extension` gives it, under
/// the path syntax of the platform that the crate is built for: the part of
/// the final component after its last dot, if that component has a dot that
/// is not its first character.
pub uninterp spec fn path_extension(path: Seq<char>) -> Option<Seq<char>>;

/// Calls `std::path::Path::extension` on `path` and hands the extension back
/// as an owned string. The contract only gives the result its name: the same
/// path always has the same extension. Nothing is said of which part of the
/// path that is.
#[verifier::external_body]
fn extension(path: &str) -> (ext: Option<String>)
    ensures
        match ext {
            Some(e) => path_extension(path@) == Some(e@),
            None => path_extension(path@).is_none(),
        },
{
    match std::path::Path::new(path).extension() {
        Some(ext) => Some(ext.to_string_lossy().into_owned()),
        None => None,
    }
}

/// Whether `ext` is one of the extensions that mark an image. The match is
/// exact: `PNG` is not `png`.
pub open spec fn is_image_extension_spec(ext: Seq<char>) -> bool {
    ext == "gif"@ || ext == "png"@ || ext == "jpg"@ || ext == "jpeg"@
}

/// Whether a path counts as an image: it has an extension, and the extension
/// is one of the four.
pub open spec fn is_image_spec(path: Seq<char>) -> bool {
    match path_extension(path) {
        Some(ext) => is_image_extension_spec(ext),
        None => false,
    }
}

/// Whether `ext`, an extension without its dot, marks an image file.
pub fn is_image_extension(ext: &str) -> (image: bool)
    ensures
        image == is_image_extension_spec(ext@),
{
    same_text(ext, "gif") || same_text(ext, "png") || same_text(ext, "jpg") || same_text(
        ext,
        "jpeg",
    )
}

/// Whether the file at `f` is taken for an image, judged by its extension.
pub fn is_image(f: &str) -> (image: bool)
    ensures
        image == is_image_spec(f@),
{
    match extension(f) {
        Some(ext) => is_image_extension(ext.as_str()),
        None => false,
    }
}

/// The test that `Seq::filter` applies to a listing.
pub open spec fn image_pred() -> spec_fn(Seq<char>) -> bool {
    |path: Seq<char>| is_image_spec(path)
}

/// The images of a listing, in the order of the listing.
pub open spec fn image_pool(listing: Seq<Seq<char>>) -> Seq<Seq<char>> {
    listing.filter(image_pred())
}

/// Keeps the entries of `listing` that are images, in their order.
pub fn select_images(listing: &Vec<String>) -> (images: Vec<String>)
    ensures
        images.deep_view() == image_pool(listing.deep_view()),
{
    let mut images: Vec<String> = Vec::new();
    let mut i: usize = 0;
    while i < listing.len()
        invariant
            i <= listing.len(),
            images.deep_view() == listing.deep_view().take(i as int).filter(image_pred()),
        decreases listing.len() - i,
    {
        let path: &String = &listing[i];
        let ghost seen = listing.deep_view().take(i as int);
        if is_image(path.as_str()) {
            images.push(path.clone());
        }
        proof {
            assert(listing.deep_view().take(i + 1) =~= seen.push(path@));
            seen.lemma_filter_push(path@, image_pred());
        }
        i += 1;
    }
    assert(listing.deep_view().take(listing.len() as int) =~= listing.deep_view());
    images
}

/// Calls `rand::seq::SliceRandom::shuffle` on the images with the generator
/// of the current thread. It reorders the slice by swapping pairs of its
/// elements, so what comes out holds the same paths, each as often as
/// before; their order is whatever the generator drew. `rand::thread_rng`
/// stops the program if the system cannot seed it.
#[verifier::external_body]
fn shuffle(images: &mut Vec<String>)
    ensures
        final(images).deep_view().to_multiset() == old(images).deep_view().to_multiset(),
{
    rand::seq::SliceRandom::shuffle(&mut images[..], &mut rand::thread_rng());
}

/// The images among the entries of a directory listing, in a random order
/// drawn anew at each call.
pub fn get_wallpapers(listing: &Vec<String>) -> (wallpapers: Vec<String>)
    ensures
        wallpapers.deep_view().to_multiset() == image_pool(listing.deep_view()).to_multiset(),
{
    let mut wallpapers = select_images(listing);
    shuffle(&mut wallpapers);
    wallpapers
}

/// Calls `rand::seq::IteratorRandom::choose` on the images with the
/// generator of the current thread. It hands back one of the images,
/// whichever the generator drew, and nothing only where there is no image
/// to draw from.
#[verifier::external_body]
fn pick(images: Vec<String>) -> (chosen: Option<String>)
    ensures
        match chosen {
            Some(image) => images.deep_view().contains(image@),
            None => images.len() == 0,
        },
{
    rand::seq::IteratorRandom::choose(images.into_iter(), &mut rand::thread_rng())
}

/// One image among the entries of a directory listing, picked at random;
/// none if the listing holds no image.
pub fn rand_wallpaper_from(listing: &Vec<String>) -> (chosen: Option<String>)
    ensures
        match chosen {
            Some(image) => image_pool(listing.deep_view()).contains(image@),
            None => image_pool(listing.deep_view()).len() == 0,
        },
{
    pick(select_images(listing))
}

} // verus!
