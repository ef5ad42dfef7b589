use photo_batch::batch::{plan_batch, plan_for_file};
use photo_batch::cli::parse_args;
use photo_batch::effects::{catalog, effect_suffix, Effect};
use photo_batch::paths::output_path;

const ALL_SUFFIXES: [&str; 18] = [
    "saturate_hsl",
    "desaturate",
    "lighten",
    "darken",
    "shift_hue",
    "solarize",
    "colorize",
    "halftone",
    "inc_brightness",
    "vertical_strips",
    "horizontal_strips",
    "tint",
    "offset",
    "offset_blue",
    "offset_red",
    "offset_green",
    "multiple_offsets",
    "primary",
];

#[test]
fn output_path_exact() {
    assert_eq!(output_path("out", "name", "solarize"), "out/name_solarize.jpg");
    assert_eq!(output_path("out", "", "tint"), "out/_tint.jpg");
}

#[test]
fn catalog_has_eighteen_effects_in_order() {
    let c = catalog();
    assert_eq!(c.len(), 18);
    for (e, want) in c.iter().zip(ALL_SUFFIXES.iter()) {
        assert_eq!(effect_suffix(e), *want);
    }
}

#[test]
fn catalog_parameters_match_the_fixed_values() {
    let c = catalog();
    assert!(matches!(c[8], Effect::IncBrightness(10)));
    assert!(matches!(c[9], Effect::VerticalStrips(5)));
    assert!(matches!(c[10], Effect::HorizontalStrips(7)));
    assert!(matches!(c[11], Effect::Tint(10, 20, 15)));
    assert!(matches!(c[12], Effect::Offset(0, 30)));
    assert!(matches!(c[16], Effect::MultipleOffsets(30, 0, 2)));
}

#[test]
fn plan_for_file_names_every_output() {
    let tasks = plan_for_file("out", "img");
    assert_eq!(tasks.len(), 18);
    assert_eq!(tasks[0].path, "out/img_saturate_hsl.jpg");
    assert_eq!(tasks[17].path, "out/img_primary.jpg");
    for (t, want) in tasks.iter().zip(ALL_SUFFIXES.iter()) {
        assert_eq!(t.path, format!("out/img_{}.jpg", want));
    }
}

#[test]
fn plan_batch_eighteen_outputs_per_file() {
    let inputs = vec![
        String::from("in/one.png"),
        String::from("in/caf\u{e9} two.jpg"),
        String::from("in/three.bmp"),
    ];
    let tasks = plan_batch("out", &inputs);
    assert_eq!(tasks.len(), 18 * 3);
    assert_eq!(tasks[0].path, "out/one_saturate_hsl.jpg");
    assert_eq!(tasks[18].path, "out/cafetwo_saturate_hsl.jpg");
    assert_eq!(tasks[18 + 17].path, "out/cafetwo_primary.jpg");
    assert_eq!(tasks[36].path, "out/three_saturate_hsl.jpg");
}

#[test]
fn plan_batch_suffixes_all_from_fixed_set() {
    let inputs = vec![String::from("a.png"), String::from("b.png")];
    let tasks = plan_batch("o", &inputs);
    for t in tasks.iter() {
        let sfx = effect_suffix(&t.effect);
        assert!(ALL_SUFFIXES.contains(&sfx));
        assert!(t.path.ends_with(&format!("_{}.jpg", sfx)));
    }
}

#[test]
fn plan_batch_empty_input() {
    let tasks = plan_batch("out", &Vec::new());
    assert_eq!(tasks.len(), 0);
}

#[test]
fn parse_args_requires_both_directories() {
    assert!(parse_args(&vec![String::from("prog")]).is_none());
    assert!(parse_args(&vec![String::from("prog"), String::from("in")]).is_none());
    let parsed = parse_args(&vec![
        String::from("prog"),
        String::from("in"),
        String::from("out"),
    ]);
    assert!(parsed.is_some());
    let parsed = parsed.unwrap();
    assert_eq!(parsed.input_dir, "in");
    assert_eq!(parsed.output_dir, "out");
}
