use font_raster::face::{FontStretch, FontStyle, FontWeight};
use font_raster::matching::{after_face, match_plan, MatchPlan, ScanStep};
use font_raster::types::{FontDesc, Size, Slant, Style, Weight};

fn names(given: &[Option<&str>]) -> Vec<Option<String>> {
    given.iter().map(|name| name.map(|name| name.to_string())).collect()
}

#[test]
fn requested_weights_become_face_weights() {
    assert_eq!(FontWeight::from(Weight::Normal), FontWeight::Regular);
    assert_eq!(FontWeight::from(Weight::Bold), FontWeight::Bold);
}

#[test]
fn requested_slants_become_face_styles() {
    assert_eq!(FontStyle::from(Slant::Normal), FontStyle::Normal);
    assert_eq!(FontStyle::from(Slant::Italic), FontStyle::Italic);
    assert_eq!(FontStyle::from(Slant::Oblique), FontStyle::Oblique);
}

#[test]
fn a_described_style_asks_for_the_nearest_face_at_normal_width() {
    let weights = [(Weight::Normal, FontWeight::Regular), (Weight::Bold, FontWeight::Bold)];
    for (weight, face_weight) in weights {
        for (slant, face_style) in [
            (Slant::Normal, FontStyle::Normal),
            (Slant::Italic, FontStyle::Italic),
            (Slant::Oblique, FontStyle::Oblique),
        ] {
            assert_eq!(
                match_plan(&Style::Description { slant, weight }),
                MatchPlan::BestMatch {
                    weight: face_weight,
                    stretch: FontStretch::Normal,
                    style: face_style,
                }
            );
        }
    }
}

#[test]
fn a_specific_style_asks_for_the_face_of_that_name() {
    assert_eq!(
        match_plan(&Style::Specific("Semibold Italic".to_string())),
        MatchPlan::ByFaceName("Semibold Italic".to_string())
    );
}

fn search(family: &[Option<String>], wanted: &str) -> (Option<u32>, u32) {
    let wanted = wanted.to_string();
    let count = family.len() as u32;
    let mut index = 0;
    let mut read = 0;
    while index < count {
        read += 1;
        match after_face(&wanted, index, count, &family[index as usize]) {
            ScanStep::Take => return (Some(index), read),
            ScanStep::Open(next) => index = next,
            ScanStep::NotFound => return (None, read),
        }
    }
    (None, read)
}

#[test]
fn the_first_face_of_the_name_is_found() {
    let family = names(&[Some("Regular"), None, Some("Bold"), Some("Italic"), Some("Bold")]);
    assert_eq!(search(&family, "Regular"), (Some(0), 1));
    assert_eq!(search(&family, "Bold"), (Some(2), 3));
    assert_eq!(search(&family, "Italic"), (Some(3), 4));
}

#[test]
fn only_the_exact_name_is_found() {
    let family = names(&[Some("Regular"), None, Some("Bold")]);
    assert_eq!(search(&family, "bold"), (None, 3));
    assert_eq!(search(&family, "Bol"), (None, 3));
    assert_eq!(search(&family, "Bold "), (None, 3));
    assert_eq!(search(&family, ""), (None, 3));
    assert_eq!(search(&names(&[]), "Regular"), (None, 0));
    assert_eq!(search(&names(&[None, None]), "Regular"), (None, 2));
    assert_eq!(search(&names(&[None, Some("")]), ""), (Some(1), 2));
}

#[test]
fn after_a_face_the_next_is_read_while_there_is_one() {
    let wanted = "Bold".to_string();
    let other = Some("Regular".to_string());
    assert_eq!(after_face(&wanted, 0, 3, &other), ScanStep::Open(1));
    assert_eq!(after_face(&wanted, 1, 3, &None), ScanStep::Open(2));
    assert_eq!(after_face(&wanted, 2, 3, &other), ScanStep::NotFound);
    assert_eq!(after_face(&wanted, 2, 3, &Some("Bold".to_string())), ScanStep::Take);
    assert_eq!(after_face(&wanted, 0, 0, &other), ScanStep::NotFound);
    assert_eq!(after_face(&wanted, u32::MAX, u32::MAX, &other), ScanStep::NotFound);
    assert_eq!(after_face(&wanted, u32::MAX - 1, u32::MAX, &other), ScanStep::NotFound);
    assert_eq!(after_face(&wanted, u32::MAX - 2, u32::MAX, &other), ScanStep::Open(u32::MAX - 1));
}

#[test]
fn descriptions_are_the_same_when_name_and_style_are() {
    let regular = FontDesc::new(
        "Consolas".to_string(),
        Style::Description { slant: Slant::Normal, weight: Weight::Normal },
    );
    let bold = FontDesc::new(
        "Consolas".to_string(),
        Style::Description { slant: Slant::Normal, weight: Weight::Bold },
    );
    let italic = FontDesc::new(
        "Consolas".to_string(),
        Style::Description { slant: Slant::Italic, weight: Weight::Normal },
    );
    let other = FontDesc::new(
        "Courier New".to_string(),
        Style::Description { slant: Slant::Normal, weight: Weight::Normal },
    );
    let named = FontDesc::new("Consolas".to_string(), Style::Specific("Regular".to_string()));
    let renamed = FontDesc::new("Consolas".to_string(), Style::Specific("Bold".to_string()));
    assert!(regular.same_as(&regular.clone()));
    assert!(named.same_as(&named.clone()));
    assert!(!regular.same_as(&bold));
    assert!(!regular.same_as(&italic));
    assert!(!regular.same_as(&other));
    assert!(!regular.same_as(&named));
    assert!(!named.same_as(&regular));
    assert!(!named.same_as(&renamed));
    assert_eq!(regular.clone(), regular);
    assert_eq!(named.clone(), named);
    assert_ne!(regular, bold);
}

#[test]
fn sizes_count_sixty_fourths_of_a_pixel() {
    assert_eq!(Size::from_px(0).units(), 0);
    assert_eq!(Size::from_px(1).units(), 64);
    assert_eq!(Size::from_px(16).units(), 1024);
    assert_eq!(Size::from_px(u16::MAX).units(), 65535 * 64);
    assert_eq!(Size::from_units(1000).units(), 1000);
    assert_eq!(Size::from_units(1024), Size::from_px(16));
    assert_ne!(Size::from_units(1023), Size::from_px(16));
}

#[test]
fn the_same_description_is_in_the_same_bucket() {
    let regular = FontDesc::new(
        "Consolas".to_string(),
        Style::Description { slant: Slant::Normal, weight: Weight::Normal },
    );
    assert_eq!(regular.bucket(), regular.clone().bucket());
    let named = FontDesc::new("Consolas".to_string(), Style::Specific("Regular".to_string()));
    assert_eq!(named.bucket(), named.clone().bucket());
    assert_ne!(regular.bucket(), named.bucket());
    let text = |name: &str| name.bytes().fold(0u64, |hash, byte| {
        hash.wrapping_mul(31).wrapping_add(byte as u64)
    });
    assert_eq!(regular.bucket(), text("Consolas").wrapping_mul(31));
    assert_eq!(
        named.bucket(),
        text("Consolas").wrapping_mul(31).wrapping_add(text("Regular").wrapping_mul(31) + 6)
    );
    let empty = FontDesc::new(
        String::new(),
        Style::Description { slant: Slant::Oblique, weight: Weight::Bold },
    );
    assert_eq!(empty.bucket(), 5);
    let long = FontDesc::new("\u{1F600}".repeat(40), Style::Specific("\u{20AC}".repeat(40)));
    assert_eq!(long.bucket(), long.clone().bucket());
}

#[test]
fn different_descriptions_may_share_a_bucket() {
    let first = FontDesc::new("A".to_string(), Style::Specific("b".to_string()));
    let second = FontDesc::new("B".to_string(), Style::Specific("a".to_string()));
    assert_eq!(first.bucket(), 5059);
    assert_eq!(second.bucket(), 5059);
    assert!(!first.same_as(&second));
}
