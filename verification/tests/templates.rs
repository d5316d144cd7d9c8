use maypaper::myptmp::common::{
    create_dest_dir, materialize_template_subtree, rewrite, Asset, Output, TemplateError, Templates,
};
use maypaper::myptmp::image::generate_image;
use maypaper::myptmp::parallax::generate_parallax;
use maypaper::myptmp::video::generate_video;

fn asset(path: &str, data: &[u8]) -> Asset {
    Asset { path: path.to_string(), data: data.to_vec() }
}

fn output(path: &str, data: &[u8]) -> Output {
    Output { path: path.to_string(), data: data.to_vec() }
}

fn templates() -> Templates {
    Templates {
        assets: vec![
            asset("image/index.html", b"<img src=\"{IMAGE}\"><p>{IMAGE}</p>"),
            asset("image/style.css", b"body { margin: 0 } /* {IMAGE} */"),
            asset("parallax/index.html", b"{IMAGE} {IMAGE_DEPTH} {PARALLAX_STRENGTH} {IMAGE}"),
            asset("parallax/js/main.js", &[0xff, 0xfe, 0x00]),
            asset("video/index.html", "<video src=\"{VIDEO}\">\u{00e9}</video>".as_bytes()),
            asset("video/assets/logo.png", &[0x89, 0x50, 0x4e, 0x47]),
            asset("videos/index.html", b"{VIDEO}"),
        ],
    }
}

fn pairs(pairs: &[(&str, &str)]) -> Vec<(String, String)> {
    pairs.iter().map(|(a, b)| (a.to_string(), b.to_string())).collect()
}

#[test]
fn the_place_of_a_wallpaper_follows_the_wish() {
    assert_eq!(create_dest_dir(None, "image"), "./image");
    assert_eq!(create_dest_dir(Some("mine"), "image"), "./mine");
    assert_eq!(create_dest_dir(Some("out/"), "image"), "out/image");
    assert_eq!(create_dest_dir(Some("/tmp/out/"), "video"), "/tmp/out/video");
    assert_eq!(create_dest_dir(Some("/tmp/out"), "video"), "/tmp/out");
    assert_eq!(create_dest_dir(Some("a/b"), "video"), "a/b");
    assert_eq!(create_dest_dir(Some("out\\"), "parallax"), "out\\/parallax");
    assert_eq!(create_dest_dir(Some("a\\b"), "parallax"), "a\\b");
    assert_eq!(create_dest_dir(Some(""), "parallax"), "./");
    assert_eq!(create_dest_dir(Some("/"), "parallax"), "/parallax");
}

#[test]
fn rewrite_replaces_each_placeholder_in_turn() {
    assert_eq!(rewrite("a {X} b {X}", &pairs(&[("{X}", "1")])), "a 1 b 1");
    assert_eq!(rewrite("{A}{B}", &pairs(&[("{A}", "{B}"), ("{B}", "z")])), "zz");
    assert_eq!(rewrite("{A}{B}", &pairs(&[("{B}", "z"), ("{A}", "{B}")])), "{B}z");
    assert_eq!(rewrite("nothing", &pairs(&[("{X}", "1")])), "nothing");
    assert_eq!(rewrite("same", &Vec::new()), "same");
}

#[test]
fn an_image_wallpaper_is_the_image_template_with_the_name_filled_in() {
    assert_eq!(
        generate_image(&templates(), "cat.png"),
        Ok(vec![
            output("index.html", b"<img src=\"cat.png\"><p>cat.png</p>"),
            output("style.css", b"body { margin: 0 } /* {IMAGE} */"),
        ])
    );
}

#[test]
fn a_video_wallpaper_is_the_video_template_with_the_name_filled_in() {
    assert_eq!(
        generate_video(&templates(), "film.webm"),
        Ok(vec![
            output("index.html", "<video src=\"film.webm\">\u{00e9}</video>".as_bytes()),
            output("assets/logo.png", &[0x89, 0x50, 0x4e, 0x47]),
        ])
    );
}

#[test]
fn a_parallax_wallpaper_fills_in_both_names_and_the_strength() {
    assert_eq!(
        generate_parallax(&templates(), "cat.png", "cat_depth.png", "0.1"),
        Ok(vec![
            output("index.html", b"cat.png cat_depth.png 0.1 cat.png"),
            output("js/main.js", &[0xff, 0xfe, 0x00]),
        ])
    );
}

#[test]
fn a_prefix_may_end_with_a_slash() {
    let with = materialize_template_subtree(&templates(), "image/", &pairs(&[("{IMAGE}", "x")]));
    let without = materialize_template_subtree(&templates(), "image", &pairs(&[("{IMAGE}", "x")]));
    assert_eq!(with, without);
    assert_eq!(with.map(|files| files.len()), Ok(2));
}

#[test]
fn a_subtree_without_files_gives_none() {
    assert_eq!(materialize_template_subtree(&templates(), "audio", &Vec::new()), Ok(Vec::new()));
    assert_eq!(materialize_template_subtree(&templates(), "vid", &Vec::new()), Ok(Vec::new()));
    assert_eq!(materialize_template_subtree(&Templates { assets: Vec::new() }, "image", &Vec::new()), Ok(Vec::new()));
}

#[test]
fn only_the_index_of_the_subtree_is_rewritten() {
    let templates = Templates {
        assets: vec![asset("t/sub/index.html", b"{X}"), asset("t/index.htm", b"{X}"), asset("t/index.html", b"{X}")],
    };
    assert_eq!(
        materialize_template_subtree(&templates, "t", &pairs(&[("{X}", "1")])),
        Ok(vec![output("sub/index.html", b"{X}"), output("index.htm", b"{X}"), output("index.html", b"1")])
    );
}

#[test]
fn an_index_that_is_not_utf8_fails_the_template() {
    let templates = Templates {
        assets: vec![asset("t/a.bin", &[0xff]), asset("t/index.html", &[0x3c, 0xff, 0x3e]), asset("t/z", b"z")],
    };
    assert_eq!(materialize_template_subtree(&templates, "t", &Vec::new()), Err(TemplateError::IndexNotUtf8));
    assert_eq!(generate_image(&Templates { assets: vec![asset("image/index.html", &[0xc0, 0x80])] }, "x"), Err(TemplateError::IndexNotUtf8));
}

#[test]
fn an_index_outside_the_subtree_is_not_looked_at() {
    let templates = Templates { assets: vec![asset("other/index.html", &[0xff]), asset("t/index.html", b"ok")] };
    assert_eq!(materialize_template_subtree(&templates, "t", &Vec::new()), Ok(vec![output("index.html", b"ok")]));
}

#[test]
fn text_beyond_ascii_is_kept() {
    let templates = Templates { assets: vec![asset("image/index.html", "«{IMAGE}» → ✓".as_bytes())] };
    assert_eq!(
        generate_image(&templates, "bild-ä.png"),
        Ok(vec![output("index.html", "«bild-ä.png» → ✓".as_bytes())])
    );
}
