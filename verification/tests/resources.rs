//! Tests of the resource-identity caches, asset decoding, colors, and
//! track selection.

use std::io::Cursor;

use stackboxes::audio::{track_for_message, Song, Track};
use stackboxes::color::Color;
use stackboxes::font::{FontInstanceId, FontSystem, Text};
use stackboxes::registry::StrKeyMap;
use stackboxes::texture::{TextureId, TextureSystem};

#[test]
fn registered_font_lookup_is_stable() {
    let mut fonts = FontSystem::new();
    let handle = fonts.add_font("Fredoka", 48).unwrap();
    assert_eq!(handle.font_name, "Fredoka");
    assert_eq!(handle.font_size, 48);
    // two lookups return the identical handle
    let first = fonts.lookup_font("Fredoka", 48).unwrap().clone();
    let second = fonts.lookup_font("Fredoka", 48).unwrap().clone();
    assert_eq!(first, second);
    assert_eq!(first, handle);
}

#[test]
fn second_font_registration_is_rejected() {
    let mut fonts = FontSystem::new();
    fonts.add_font("Fredoka", 48).unwrap();
    assert!(fonts.add_font("Fredoka", 48).is_err());
    // a different size of the same family is a different instance
    assert!(fonts.add_font("Fredoka", 18).is_ok());
    assert!(fonts.lookup_font("Fredoka", 14).is_none());
}

#[test]
fn str_key_map_first_registration_wins() {
    let mut map: StrKeyMap<u64> = StrKeyMap::new();
    assert!(map.insert("font_fredoka_big", 1));
    assert!(!map.insert("font_fredoka_big", 2));
    assert_eq!(map.get("font_fredoka_big"), Some(&1));
    assert_eq!(map.get("font_fredoka_big"), Some(&1));
    assert_eq!(map.get("font_fredoka_small"), None);
    assert_eq!(map.len(), 1);
}

#[test]
fn texture_ids_map_to_registered_handles() {
    let mut map: StrKeyMap<TextureId> = StrKeyMap::new();
    let id = TextureId { texture_id: String::from("crate.png") };
    assert!(map.insert("texture_crate", id.clone()));
    assert_eq!(map.get("texture_crate").unwrap().texture_id, "crate.png");
}

fn tiny_png() -> Vec<u8> {
    // a 2 by 2 RGBA image with distinct pixel values, encoded as PNG
    let mut img = image::RgbaImage::new(2, 2);
    img.put_pixel(0, 0, image::Rgba([255, 0, 0, 255]));
    img.put_pixel(1, 0, image::Rgba([0, 255, 0, 255]));
    img.put_pixel(0, 1, image::Rgba([0, 0, 255, 255]));
    img.put_pixel(1, 1, image::Rgba([10, 20, 30, 40]));
    let mut bytes: Vec<u8> = Vec::new();
    image::DynamicImage::ImageRgba8(img)
        .write_to(&mut Cursor::new(&mut bytes), image::ImageFormat::Png)
        .unwrap();
    bytes
}

#[test]
fn png_texture_is_decoded_and_registered() {
    let mut textures = TextureSystem::new();
    let data = tiny_png();
    let id = textures.add_png_texture("texture_crate", &data).unwrap();
    assert_eq!(id.texture_id, "texture_crate");
    let entry = textures.get_texture("texture_crate").unwrap();
    assert_eq!(entry.width, 2);
    assert_eq!(entry.height, 2);
    assert_eq!(entry.pixels.len(), 4 * 2 * 2);
    // the decoded buffer holds the encoded pixels, row by row
    assert_eq!(&entry.pixels[0..4], &[255, 0, 0, 255]);
    assert_eq!(&entry.pixels[4..8], &[0, 255, 0, 255]);
    assert_eq!(&entry.pixels[8..12], &[0, 0, 255, 255]);
    assert_eq!(&entry.pixels[12..16], &[10, 20, 30, 40]);
}

#[test]
fn invalid_png_is_rejected() {
    let mut textures = TextureSystem::new();
    assert!(textures.add_png_texture("texture_crate", &[1, 2, 3, 4]).is_err());
    assert!(textures.get_texture("texture_crate").is_none());
}

#[test]
fn second_texture_registration_is_rejected() {
    let mut textures = TextureSystem::new();
    let data = tiny_png();
    textures.add_png_texture("texture_crate", &data).unwrap();
    assert!(textures.add_png_texture("texture_crate", &data).is_err());
}

#[test]
fn invalid_ogg_is_rejected() {
    assert!(Song::decode_from_bytes(&[0, 1, 2, 3, 4, 5, 6, 7]).is_none());
    assert!(Song::decode_from_bytes(&[]).is_none());
}

#[test]
fn track_selection_recognizes_known_messages() {
    assert_eq!(
        track_for_message(stackboxes::assets::AUDIO_MSG_PLAY_TITLE_SCREEN_SONG),
        Some(Track::TitleScreen)
    );
    assert_eq!(
        track_for_message(stackboxes::assets::AUDIO_MSG_PLAY_GAME_SONG),
        Some(Track::Game1)
    );
    assert_eq!(
        track_for_message(stackboxes::assets::AUDIO_MSG_PLAY_ENDING_SONG),
        Some(Track::Ending)
    );
    assert_eq!(track_for_message("no such track"), None);
}

#[test]
fn colors_have_expected_channels() {
    let blue = Color::light_blue();
    assert_eq!((blue.r, blue.g, blue.b, blue.a), (0, 159, 207, 255));
    let white = Color::white();
    assert_eq!((white.r, white.g, white.b, white.a), (255, 255, 255, 255));
    let black = Color::black();
    assert_eq!((black.r, black.g, black.b, black.a), (0, 0, 0, 255));
}

#[test]
fn text_keeps_its_fields() {
    let font = FontInstanceId { font_name: String::from("Fredoka"), font_size: 18 };
    let text = Text::new(&font, "Start Game", 40, 50);
    assert_eq!(text.font, &font);
    assert_eq!(text.text, "Start Game");
    assert_eq!(text.screen_x, 40);
    assert_eq!(text.screen_y, 50);
}

#[test]
fn asset_regions_match_table() {
    let button = stackboxes::assets::start_screen_button_00_tx_str();
    assert_eq!(button.region.width, 190);
    assert_eq!(button.region.height, 49);
    let hero = stackboxes::assets::hero_tx_normal_str();
    assert_eq!(hero.region.bottom_y, 64);
    assert_eq!(hero.region.width, 16);
    let crate_region = stackboxes::assets::crate_texture_tx_str();
    assert_eq!(crate_region.region.width, 32);
    let background = stackboxes::assets::background_3_texture_tx_str();
    assert_eq!(background.region.width, 256);
    assert_eq!(background.region.height, 182);
}
