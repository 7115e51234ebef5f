use caydence::image::{
    get_wallpapers, is_image, is_image_extension, rand_wallpaper_from, select_images,
};
use std::path::PathBuf;
use std::str::FromStr;

fn listing(names: &[&str]) -> Vec<String> {
    names.iter().map(|name| name.to_string()).collect()
}

#[test]
fn image_extension_works() {
    let ex = PathBuf::from_str("example.png").unwrap();
    assert!(is_image(ex.to_str().unwrap()))
}

#[test]
fn worker_image_extension_works() {
    let ex = PathBuf::from_str("example.png").unwrap();
    assert!(is_image(ex.to_str().unwrap()))
}

#[test]
fn every_known_extension_is_an_image() {
    assert!(is_image("a.gif"));
    assert!(is_image("b.png"));
    assert!(is_image("c.jpg"));
    assert!(is_image("d.jpeg"));
    assert!(is_image("/home/user/wallpapers/e.jpeg"));
}

#[test]
fn other_files_are_no_images() {
    assert!(!is_image("notes.txt"));
    assert!(!is_image("archive.tar.gz"));
    assert!(!is_image("png"));
    assert!(!is_image("no_extension"));
    assert!(!is_image(""));
    assert!(!is_image("picture.bmp"));
}

#[test]
fn the_extension_is_compared_exactly() {
    assert!(!is_image("shout.PNG"));
    assert!(!is_image("shout.Jpg"));
    assert!(!is_image("almost.pngs"));
    assert!(!is_image("almost.pn"));
}

#[test]
fn only_the_last_extension_of_the_last_component_counts() {
    assert!(is_image("photo.txt.png"));
    assert!(!is_image("photo.png.txt"));
    assert!(!is_image("album.png/readme"));
    assert!(is_image("album.txt/cover.gif"));
}

#[test]
fn a_leading_dot_starts_no_extension() {
    assert!(!is_image(".png"));
    assert!(!is_image("dir/.jpg"));
    assert!(is_image(".hidden.png"));
}

#[test]
fn extensions_are_judged_without_their_dot() {
    assert!(is_image_extension("gif"));
    assert!(is_image_extension("png"));
    assert!(is_image_extension("jpg"));
    assert!(is_image_extension("jpeg"));
    assert!(!is_image_extension(".png"));
    assert!(!is_image_extension(""));
    assert!(!is_image_extension("webp"));
}

#[test]
fn select_images_keeps_images_in_listing_order() {
    let entries = listing(&["z.png", "notes.txt", "a.gif", "b", "m.jpeg", "z.png", "k.jpg"]);
    assert_eq!(
        select_images(&entries),
        listing(&["z.png", "a.gif", "m.jpeg", "z.png", "k.jpg"])
    );
}

#[test]
fn select_images_of_nothing_is_nothing() {
    assert_eq!(select_images(&Vec::new()), Vec::<String>::new());
    assert_eq!(select_images(&listing(&["a.txt", "b"])), Vec::<String>::new());
}

#[test]
fn get_wallpapers_reorders_the_images_and_nothing_else() {
    let entries = listing(&["c.png", "skip.me", "a.gif", "b.jpg", "a.gif", "d.jpeg", "x"]);
    let mut expected = select_images(&entries);
    expected.sort();
    for _ in 0..20 {
        let mut wallpapers = get_wallpapers(&entries);
        wallpapers.sort();
        assert_eq!(wallpapers, expected);
    }
}

#[test]
fn get_wallpapers_draws_an_order() {
    let entries: Vec<String> = (0..64).map(|i| format!("{i:02}.png")).collect();
    let in_order = select_images(&entries);
    assert_eq!(in_order, entries);
    let shuffled = get_wallpapers(&entries);
    assert_eq!(shuffled.len(), 64);
    assert_ne!(shuffled, in_order);
}

#[test]
fn get_wallpapers_of_no_image_is_empty() {
    assert!(get_wallpapers(&listing(&["readme.md"])).is_empty());
    assert!(get_wallpapers(&Vec::new()).is_empty());
}

#[test]
fn a_random_wallpaper_is_an_image_of_the_listing() {
    let entries = listing(&["c.png", "skip.me", "a.gif", "b.jpg", "x"]);
    let images = select_images(&entries);
    for _ in 0..50 {
        let chosen = rand_wallpaper_from(&entries).unwrap();
        assert!(images.contains(&chosen));
    }
}

#[test]
fn a_random_wallpaper_is_not_always_the_same() {
    let entries: Vec<String> = (0..8).map(|i| format!("{i}.png")).collect();
    let first = rand_wallpaper_from(&entries).unwrap();
    let draws: Vec<String> = (0..200).map(|_| rand_wallpaper_from(&entries).unwrap()).collect();
    assert!(draws.iter().any(|drawn| *drawn != first));
}

#[test]
fn no_image_no_random_wallpaper() {
    assert_eq!(rand_wallpaper_from(&Vec::new()), None);
    assert_eq!(rand_wallpaper_from(&listing(&["a.txt", "b.mp4"])), None);
}

#[test]
fn the_only_image_is_always_picked() {
    let entries = listing(&["only.jpeg", "notes.txt"]);
    for _ in 0..10 {
        assert_eq!(rand_wallpaper_from(&entries), Some(String::from("only.jpeg")));
    }
}
