//! The image compositor: a named template is filled with a context, the
//! resulting SVG is rasterized, and the raster is packed into the display
//! bitmap.
use vstd::prelude::*;
use vstd::string::StrSliceExecFns;
use std::sync::Arc;
use resvg::usvg::fontdb::Database;
use serde_json::Value;
use crate::bitmap::{RASTER_SIZE, IMAGE_SIZE, HEADER_SIZE, HEIGHT, WIDTH, bmp_header, bmp_of, create_bmp};

verus! {

#[verifier::external_type_specification]
#[verifier::external_body]
pub struct ExDatabase(resvg::usvg::fontdb::Database);

#[verifier::external_type_specification]
#[verifier::external_body]
pub struct ExValue(serde_json::Value);

#[verifier::external_type_specification]
#[verifier::external_body]
#[verifier::reject_recursive_types(K)]
#[verifier::reject_recursive_types(V)]
pub struct ExMap<K, V>(serde_json::Map<K, V>);

/// A template as loaded: its path relative to the template directory, and
/// its source.
pub struct Template {
    pub name: String,
    pub content: String,
}

/// Renders templates into display bitmaps. The templates, fonts and icon
/// table are a snapshot taken at construction and never change.
pub struct DisplayRenderer {
    pub templates: Vec<Template>,
    pub fonts: Arc<Database>,
    pub icons: serde_json::Map<String, Value>,
}

/// Why a render failed.
pub enum RenderError {
    TemplateNotFound(String),
    TemplateRenderError(String),
    MarkupError(String),
}

impl RenderError {
    pub fn to_string(&self) -> (r: String)
        ensures
            r@ == match self {
                RenderError::TemplateNotFound(n) => "template not found: "@ + n@,
                RenderError::TemplateRenderError(m) => m@,
                RenderError::MarkupError(m) => m@,
            },
    {
        match self {
            RenderError::TemplateNotFound(n) => {
                let mut s = "template not found: ".to_owned();
                s.append(n.as_str());
                s
            },
            RenderError::TemplateRenderError(m) => m.clone(),
            RenderError::MarkupError(m) => m.clone(),
        }
    }
}

/// A raster as the rasterizer hands it over: RGBA bytes, row-major, top row
/// first.
pub struct Raster {
    pub width: u32,
    pub height: u32,
    pub pixels: Vec<u8>,
}

/// The name and source of each template.
pub open spec fn template_views(ts: Seq<Template>) -> Seq<(Seq<char>, Seq<char>)> {
    ts.map_values(|t: Template| (t.name@, t.content@))
}

/// The output of template `name`, among `templates`, rendered by minijinja
/// with context `ctx`; `None` where adding, finding or rendering fails.
pub uninterp spec fn svg_of(
    templates: Seq<(Seq<char>, Seq<char>)>,
    name: Seq<char>,
    ctx: serde_json::Map<String, Value>,
) -> Option<Seq<char>>;

/// A context with `key` bound to the object `entry`.
pub uninterp spec fn with_entry_of(
    ctx: serde_json::Map<String, Value>,
    key: Seq<char>,
    entry: serde_json::Map<String, Value>,
) -> serde_json::Map<String, Value>;

/// Relies on minijinja's `Environment::add_template`, `get_template` and
/// `Template::render`; every template is added so that templates can include
/// one another.
#[verifier::external_body]
fn render_template(templates: &Vec<Template>, name: &str, ctx: &serde_json::Map<String, Value>) -> (r: Result<String, String>)
    ensures
        r matches Ok(svg) ==> svg_of(template_views(templates@), name@, *ctx) == Some(svg@),
        r is Err ==> svg_of(template_views(templates@), name@, *ctx) is None,
{
    let mut env = minijinja::Environment::new();
    for t in templates {
        env.add_template(&t.name, &t.content).map_err(|e| e.to_string())?;
    }
    let template = env.get_template(name).map_err(|e| e.to_string())?;
    template.render(ctx).map_err(|e| e.to_string())
}

/// Relies on serde_json's `Map::clone` and `Map::insert`: `ctx` with `key`
/// bound to the object `entry`.
#[verifier::external_body]
fn with_entry(ctx: &serde_json::Map<String, Value>, key: &str, entry: &serde_json::Map<String, Value>) -> (r: serde_json::Map<String, Value>)
    ensures
        r == with_entry_of(*ctx, key@, *entry),
{
    let mut merged = ctx.clone();
    merged.insert(key.to_owned(), Value::Object(entry.clone()));
    merged
}

/// Relies on usvg's `Tree::from_data` (fonts resolved against `fonts`) and
/// resvg's `render` onto a tiny-skia `Pixmap` of the markup's own size, whose
/// data holds four bytes per pixel.
#[verifier::external_body]
fn rasterize(svg: &str, fonts: &Arc<Database>) -> (r: Result<Raster, String>)
    ensures
        r matches Ok(raster) ==> raster.pixels@.len() == 4 * raster.width * raster.height,
{
    let opt = resvg::usvg::Options { fontdb: fonts.clone(), ..resvg::usvg::Options::default() };
    let tree = resvg::usvg::Tree::from_data(svg.as_bytes(), &opt).map_err(|e| e.to_string())?;
    let size = tree.size().to_int_size();
    let mut pixmap = resvg::tiny_skia::Pixmap::new(size.width(), size.height())
        .ok_or_else(|| "empty image".to_string())?;
    resvg::render(&tree, resvg::tiny_skia::Transform::default(), &mut pixmap.as_mut());
    Ok(Raster { width: size.width(), height: size.height(), pixels: pixmap.take() })
}

pub open spec fn packs(raster: Raster, r: Result<Vec<u8>, RenderError>) -> bool {
    &&& r is Ok <==> (raster.width == WIDTH && raster.height == HEIGHT && raster.pixels@.len() == RASTER_SIZE)
    &&& r matches Ok(b) ==> b@ == bmp_of(raster.pixels@)
    &&& r is Err ==> r matches Err(RenderError::MarkupError(_))
}

/// Whether `b` is a display bitmap: the fixed length, the fixed header, and
/// the packing of some raster of the display's size.
pub open spec fn is_display_bitmap(b: Seq<u8>) -> bool {
    &&& b.len() == IMAGE_SIZE
    &&& b.subrange(0, HEADER_SIZE as int) == bmp_header()
    &&& exists|p: Seq<u8>| p.len() == RASTER_SIZE && b == #[trigger] bmp_of(p)
}

proof fn lemma_bmp_of_shape(p: Seq<u8>)
    ensures
        bmp_of(p).len() == IMAGE_SIZE,
        bmp_of(p).subrange(0, HEADER_SIZE as int) == bmp_header(),
{
    assert(bmp_of(p).subrange(0, HEADER_SIZE as int) =~= bmp_header());
}

/// Packs a raster of the display's size; any other size is a markup error.
pub fn pack_raster(raster: &Raster) -> (r: Result<Vec<u8>, RenderError>)
    ensures
        packs(*raster, r),
{
    if raster.width != 800 || raster.height != 480 || raster.pixels.len() != RASTER_SIZE {
        return Err(RenderError::MarkupError("the image is not of the display's size".to_owned()));
    }
    Ok(create_bmp(raster.pixels.as_slice()))
}

/// The context a template sees: the caller's, with the icon table under
/// `icons`.
pub open spec fn template_context(ctx: serde_json::Map<String, Value>, icons: serde_json::Map<String, Value>) -> serde_json::Map<String, Value> {
    with_entry_of(ctx, "icons"@, icons)
}

pub open spec fn template_names(ts: Seq<Template>) -> Seq<Seq<char>> {
    ts.map_values(|t: Template| t.name@)
}

impl DisplayRenderer {
    pub fn new(fonts: Arc<Database>, templates: Vec<Template>, icons: serde_json::Map<String, Value>) -> (r: DisplayRenderer)
        ensures
            r.templates == templates,
            r.fonts == fonts,
            r.icons == icons,
    {
        DisplayRenderer { templates, fonts, icons }
    }

    pub open spec fn names(&self) -> Seq<Seq<char>> {
        template_names(self.templates@)
    }

    /// Whether a template of this name is loaded.
    pub fn has_template(&self, name: &str) -> (r: bool)
        ensures
            r == self.names().contains(name@),
    {
        let wanted = name.to_owned();
        let mut i: usize = 0;
        while i < self.templates.len()
            invariant
                i <= self.templates@.len(),
                wanted@ == name@,
                forall|j: int| 0 <= j < i ==> self.templates@[j].name@ != name@,
            decreases self.templates@.len() - i,
        {
            if self.templates[i].name == wanted {
                assert(self.names()[i as int] == name@);
                return true;
            }
            i = i + 1;
        }
        proof {
            if self.names().contains(name@) {
                let k = choose|k: int| 0 <= k < self.names().len() && self.names()[k] == name@;
                assert(self.templates@[k].name@ == name@);
            }
        }
        false
    }

    /// Rasterizes SVG markup and packs it into a display bitmap. The raster
    /// comes from resvg, which may read linked images and font files from
    /// disk; its packing is `pack_raster`.
    pub fn render(&self, svg: &str) -> (r: Result<Vec<u8>, RenderError>)
        ensures
            r matches Ok(b) ==> is_display_bitmap(b@),
            r is Err ==> r matches Err(RenderError::MarkupError(_)),
    {
        let raster = match rasterize(svg, &self.fonts) {
            Ok(raster) => raster,
            Err(m) => return Err(RenderError::MarkupError(m)),
        };
        let r = pack_raster(&raster);
        proof {
            if r is Ok {
                lemma_bmp_of_shape(raster.pixels@);
            }
        }
        r
    }

    /// Renders template `name` with `ctx`, with the icon table bound under
    /// `icons`, into a display bitmap. An unknown name fails before anything
    /// is rendered; any later failure aborts the whole render.
    pub fn render_jinja(&self, name: &str, ctx: &serde_json::Map<String, Value>) -> (r: Result<Vec<u8>, RenderError>)
        ensures
            r matches Ok(b) ==> is_display_bitmap(b@),
            !self.names().contains(name@) <==> r matches Err(RenderError::TemplateNotFound(n)),
            r matches Err(RenderError::TemplateNotFound(n)) ==> n@ == name@,
            self.names().contains(name@) ==> (r matches Err(RenderError::TemplateRenderError(_))
                <==> svg_of(template_views(self.templates@), name@, template_context(*ctx, self.icons)) is None),
    {
        if !self.has_template(name) {
            return Err(RenderError::TemplateNotFound(name.to_owned()));
        }
        let merged = with_entry(ctx, "icons", &self.icons);
        let svg = match render_template(&self.templates, name, &merged) {
            Ok(svg) => svg,
            Err(m) => return Err(RenderError::TemplateRenderError(m)),
        };
        self.render(svg.as_str())
    }
}

/// Packing is a function of the raster: two packings of the same raster give
/// the same outcome.
pub proof fn lemma_packing_deterministic(
    raster: Raster,
    first: Result<Vec<u8>, RenderError>,
    second: Result<Vec<u8>, RenderError>,
)
    requires
        packs(raster, first),
        packs(raster, second),
    ensures
        first is Ok <==> second is Ok,
        first matches Ok(b1) ==> (second matches Ok(b2) && b1@ == b2@),
{
}

/// A directory entry as the template scan sees it: its file name, and
/// whether it is a regular file.
pub struct DirEntryInfo {
    pub name: String,
    pub is_file: bool,
}

/// The position of the last `.` in `s`, or -1.
pub open spec fn last_dot(s: Seq<char>) -> int
    decreases s.len(),
{
    if s.len() == 0 {
        -1
    } else if s.last() == '.' {
        s.len() - 1
    } else {
        last_dot(s.drop_last())
    }
}

/// A file name's extension as `Path::extension` gives it: what follows the
/// last `.`, unless there is none or it is the leading character.
pub open spec fn extension_of(name: Seq<char>) -> Option<Seq<char>> {
    let i = last_dot(name);
    if i <= 0 {
        None
    } else {
        Some(name.subrange(i + 1, name.len() as int))
    }
}

pub open spec fn is_template_entry(e: DirEntryInfo) -> bool {
    e.is_file && extension_of(e.name@) == Some("jinja"@)
}

/// The names of the template files among `entries`, in order.
pub open spec fn template_names_of(entries: Seq<DirEntryInfo>) -> Seq<Seq<char>>
    decreases entries.len(),
{
    if entries.len() == 0 {
        Seq::empty()
    } else {
        let before = template_names_of(entries.drop_last());
        if is_template_entry(entries.last()) {
            before.push(entries.last().name@)
        } else {
            before
        }
    }
}

proof fn lemma_last_dot_bounds(s: Seq<char>)
    ensures
        -1 <= last_dot(s) < s.len(),
        last_dot(s) >= 0 ==> s[last_dot(s)] == '.',
    decreases s.len(),
{
    if s.len() > 0 {
        lemma_last_dot_bounds(s.drop_last());
    }
}

/// The extension of a file name.
pub fn extension(name: &str) -> (r: Option<String>)
    ensures
        r matches Some(e) ==> extension_of(name@) == Some(e@),
        r is None ==> extension_of(name@) is None,
{
    let n = name.unicode_len();
    // One past the position of the last dot seen so far; zero for none.
    let mut after_dot: usize = 0;
    let mut i: usize = 0;
    while i < n
        invariant
            i <= n,
            n == name@.len(),
            after_dot as int - 1 == last_dot(name@.subrange(0, i as int)),
            after_dot <= i,
        decreases n - i,
    {
        let c = name.get_char(i);
        assert(name@.subrange(0, i + 1).drop_last() =~= name@.subrange(0, i as int));
        if c == '.' {
            after_dot = i + 1;
        }
        i = i + 1;
    }
    assert(name@.subrange(0, n as int) =~= name@);
    proof {
        lemma_last_dot_bounds(name@);
    }
    if after_dot <= 1 {
        return None;
    }
    Some(name.substring_char(after_dot, n).to_owned())
}

/// The template files among the entries of the template directory, by name
/// in order; an entry without an extension fails the scan.
pub fn select_templates(entries: &Vec<DirEntryInfo>) -> (r: Result<Vec<String>, String>)
    ensures
        r is Err <==> exists|i: int| 0 <= i < entries@.len() && extension_of(#[trigger] entries@[i].name@) is None,
        r matches Err(m) ==> m@ == "missing extension"@,
        r matches Ok(names) ==> names@.map_values(|n: String| n@) == template_names_of(entries@),
{
    let jinja = "jinja".to_owned();
    let mut names: Vec<String> = Vec::new();
    let mut i: usize = 0;
    while i < entries.len()
        invariant
            i <= entries@.len(),
            jinja@ == "jinja"@,
            names@.map_values(|n: String| n@) == template_names_of(entries@.subrange(0, i as int)),
            forall|j: int| 0 <= j < i ==> extension_of(#[trigger] entries@[j].name@) is Some,
        decreases entries@.len() - i,
    {
        let e = &entries[i];
        assert(entries@.subrange(0, i + 1).drop_last() =~= entries@.subrange(0, i as int));
        assert(entries@.subrange(0, i + 1).last() == entries@[i as int]);
        let ext = match extension(e.name.as_str()) {
            Some(x) => x,
            None => return Err("missing extension".to_owned()),
        };
        if e.is_file && ext == jinja {
            let ghost before = names@;
            names.push(e.name.clone());
            assert(names@.map_values(|n: String| n@) =~= before.map_values(|n: String| n@).push(e.name@));
        }
        i = i + 1;
    }
    assert(entries@.subrange(0, entries@.len() as int) =~= entries@);
    Ok(names)
}

} // verus!
