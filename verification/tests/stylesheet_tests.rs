use tui_core::layout_error::LayoutError;
use tui_core::style::Color;
use tui_core::style::Style;
use tui_core::stylesheet::Stylesheet;

fn style(id: &str) -> Style {
    Style::plain(id.to_owned())
}

#[test]
fn lenient_lookup_skips_missing_ids() {
    // A sheet holding only style1: asking for ["missing", "style1"]
    // returns exactly the record for style1 and nothing for "missing".
    let mut sheet = Stylesheet::new();
    sheet.add_styles(vec![style("style1")]).unwrap();
    let found = sheet.find_styles_by_ids(&vec!["missing".to_string(), "style1".to_string()]);
    assert_eq!(found.len(), 1);
    assert_eq!(found[0].id, "style1");
}

#[test]
fn lookup_preserves_caller_order() {
    let mut sheet = Stylesheet::new();
    sheet.add_styles(vec![style("a"), style("b"), style("c")]).unwrap();
    let found = sheet.find_styles_by_ids(&vec![
        "c".to_string(),
        "missing".to_string(),
        "a".to_string(),
    ]);
    assert_eq!(found.len(), 2);
    assert_eq!(found[0].id, "c");
    assert_eq!(found[1].id, "a");
}

#[test]
fn duplicate_id_against_existing_fails_and_leaves_sheet_unchanged() {
    let mut sheet = Stylesheet::new();
    sheet.add_styles(vec![style("a")]).unwrap();
    let r = sheet.add_styles(vec![style("b"), style("a")]);
    assert!(matches!(r, Err(LayoutError::DuplicateStyleId)));
    assert_eq!(sheet.len(), 1);
    assert!(sheet.find_style(&"b".to_string()).is_none());
}

#[test]
fn duplicate_id_within_incoming_batch_fails() {
    let mut sheet = Stylesheet::new();
    let r = sheet.add_styles(vec![style("x"), style("x")]);
    assert!(matches!(r, Err(LayoutError::DuplicateStyleId)));
    assert_eq!(sheet.len(), 0);
}

#[test]
fn found_styles_carry_their_fields() {
    let mut sheet = Stylesheet::new();
    let mut s = style("fancy");
    s.color_bg = Some(Color::Rgb { r: 1, g: 2, b: 3 });
    s.margin = Some(4);
    sheet.add_styles(vec![s]).unwrap();
    let found = sheet.find_styles_by_ids(&vec!["fancy".to_string()]);
    assert_eq!(found.len(), 1);
    assert_eq!(found[0].color_bg, Some(Color::Rgb { r: 1, g: 2, b: 3 }));
    assert_eq!(found[0].margin, Some(4));
    assert_eq!(found[0].color_fg, None);
}
