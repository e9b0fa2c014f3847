use canvas_ui::fonts::{FontCache, FontDescription};
use canvas_ui::screens::{default_font, default_font_details};

#[test]
fn repeated_identical_descriptions_return_the_same_handle() {
    let mut cache = FontCache::new();
    let h1 = cache.add_or_get(FontDescription::from_str("", "Arial"));
    let h2 = cache.add_or_get(FontDescription::from_str("", "Arial"));
    let h3 = cache.add_or_get(FontDescription::from_str("", "Arial"));
    assert_eq!(h1, h2);
    assert_eq!(h2, h3);
    // one load for one distinct description, no matter how often asked
    assert_eq!(cache.len(), 1);
}

#[test]
fn distinct_descriptions_load_once_each() {
    let mut cache = FontCache::new();
    let arial = cache.add_or_get(FontDescription::from_str("", "Arial"));
    let bold = cache.add_or_get(FontDescription::from_str("bold", "Arial"));
    let mono = cache.add_or_get(FontDescription::from_str("", "Courier"));
    assert_ne!(arial, bold);
    assert_ne!(arial, mono);
    assert_ne!(bold, mono);
    assert_eq!(cache.len(), 3);
    // asking again loads nothing further and returns the first handles
    assert_eq!(cache.add_or_get(FontDescription::from_str("bold", "Arial")), bold);
    assert_eq!(cache.add_or_get(FontDescription::from_str("", "Courier")), mono);
    assert_eq!(cache.len(), 3);
}

#[test]
fn lookup_without_creation() {
    let mut cache = FontCache::new();
    let missing = cache.get_by_description(&FontDescription::from_str("", "Arial"));
    assert!(missing.is_none());
    assert_eq!(cache.len(), 0);
    let h = cache.add_or_get(FontDescription::from_str("", "Arial"));
    let found = cache.get_by_description(&FontDescription::from_str("", "Arial"));
    assert_eq!(found, Some(h));
    // family and style are both part of the key
    let other_style = cache.get_by_description(&FontDescription::from_str("bold", "Arial"));
    assert!(other_style.is_none());
}

#[test]
fn default_font_is_found_once_registered() {
    let mut cache = FontCache::new();
    assert!(default_font(&cache).is_none());
    let h = cache.add_or_get(default_font_details());
    assert_eq!(default_font(&cache), Some(h));
}
