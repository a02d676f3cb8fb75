use std::sync::Arc;
use resvg::usvg::fontdb::Database;
use serde_json::Value;
use trmnl_server::bitmap::{HEADER_SIZE, IMAGE_SIZE, RASTER_SIZE};
use trmnl_server::display::{extension, pack_raster, select_templates, DirEntryInfo, DisplayRenderer, Raster, RenderError, Template};

const FULL: &str = r#"<svg xmlns="http://www.w3.org/2000/svg" width="800" height="480"><rect x="0" y="0" width="800" height="480" fill="{{ fill }}"/></svg>"#;

fn renderer() -> DisplayRenderer {
    let mut icons = serde_json::Map::new();
    icons.insert("sunny".to_string(), Value::String("M0 0".to_string()));
    DisplayRenderer::new(
        Arc::new(Database::new()),
        vec![
            Template { name: "test.svg.jinja".to_string(), content: FULL.to_string() },
            Template { name: "icons.svg.jinja".to_string(), content: "{{ icons.sunny }}".to_string() },
        ],
        icons,
    )
}

fn ctx(fill: &str) -> serde_json::Map<String, Value> {
    let mut m = serde_json::Map::new();
    m.insert("fill".to_string(), Value::String(fill.to_string()));
    m
}

#[test]
fn it_should_render_image() {
    let image = renderer().render_jinja("test.svg.jinja", &ctx("white")).unwrap_or_else(|e| panic!("{}", e.to_string()));
    assert_eq!(image.len(), IMAGE_SIZE);
    assert!(image[HEADER_SIZE..].iter().all(|b| *b == 0xff));
    let black = renderer().render_jinja("test.svg.jinja", &ctx("black")).unwrap_or_else(|e| panic!("{}", e.to_string()));
    assert!(black[HEADER_SIZE..].iter().all(|b| *b == 0));
}

#[test]
fn rendering_twice_gives_identical_bytes() {
    let r = renderer();
    let a = r.render_jinja("test.svg.jinja", &ctx("white")).unwrap_or_else(|e| panic!("{}", e.to_string()));
    let b = r.render_jinja("test.svg.jinja", &ctx("white")).unwrap_or_else(|e| panic!("{}", e.to_string()));
    assert_eq!(a, b);
}

#[test]
fn unknown_template_is_not_found() {
    match renderer().render_jinja("missing.svg.jinja", &serde_json::Map::new()) {
        Err(RenderError::TemplateNotFound(n)) => assert_eq!(n, "missing.svg.jinja"),
        _ => panic!("expected a missing template"),
    }
}

#[test]
fn template_and_markup_failures() {
    let broken = DisplayRenderer::new(
        Arc::new(Database::new()),
        vec![Template { name: "broken.svg.jinja".to_string(), content: "{% if %}".to_string() }],
        serde_json::Map::new(),
    );
    assert!(matches!(
        broken.render_jinja("broken.svg.jinja", &serde_json::Map::new()),
        Err(RenderError::TemplateRenderError(_))
    ));
    assert!(matches!(
        renderer().render_jinja("icons.svg.jinja", &serde_json::Map::new()),
        Err(RenderError::MarkupError(_))
    ));
    let small = r#"<svg xmlns="http://www.w3.org/2000/svg" width="8" height="8"></svg>"#;
    assert!(matches!(renderer().render(small), Err(RenderError::MarkupError(_))));
}

#[test]
fn raster_of_other_size_is_refused() {
    let ok = Raster { width: 800, height: 480, pixels: vec![255; RASTER_SIZE] };
    assert_eq!(pack_raster(&ok).unwrap_or_else(|_| panic!("packs")).len(), IMAGE_SIZE);
    let wrong = Raster { width: 480, height: 800, pixels: vec![255; RASTER_SIZE] };
    assert!(matches!(pack_raster(&wrong), Err(RenderError::MarkupError(_))));
}

fn entry(name: &str, is_file: bool) -> DirEntryInfo {
    DirEntryInfo { name: name.to_string(), is_file }
}

#[test]
fn extensions_follow_path_rules() {
    assert_eq!(extension("test.svg.jinja").as_deref(), Some("jinja"));
    assert_eq!(extension("a.").as_deref(), Some(""));
    assert_eq!(extension("README"), None);
    assert_eq!(extension(".jinja"), None);
    assert_eq!(extension("été.jinja").as_deref(), Some("jinja"));
    for name in ["test.svg.jinja", "a.", "README", ".jinja", "x.y.z"] {
        let path = std::path::Path::new(name);
        assert_eq!(extension(name), path.extension().map(|e| e.to_str().unwrap().to_string()), "{}", name);
    }
}

#[test]
fn template_scan_keeps_jinja_files_in_order() {
    let entries = vec![
        entry("b.svg.jinja", true),
        entry("default.json", true),
        entry("dir.jinja", false),
        entry("a.svg.jinja", true),
    ];
    let names = select_templates(&entries).unwrap_or_else(|e| panic!("{}", e));
    assert_eq!(names, vec!["b.svg.jinja".to_string(), "a.svg.jinja".to_string()]);
    let bad = vec![entry("a.svg.jinja", true), entry("fonts", false)];
    assert_eq!(select_templates(&bad).err().as_deref(), Some("missing extension"));
}
