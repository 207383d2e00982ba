use vstd::prelude::*;

use crate::error::{result_of, InitError, InitResult};
use crate::text::{has_suffix, trim_suffix, without_suffix};

verus! {

#[verifier::external_type_specification]
#[verifier::external_body]
pub struct ExElement(xmltree::Element);

/// A plain model of an XML element: its tag, its attributes in the order in
/// which they are written, and its child elements in document order.
pub struct XmlTree {
    pub tag: Seq<char>,
    pub attributes: Seq<(Seq<char>, Seq<char>)>,
    pub children: Seq<XmlTree>,
}

/// The element with these parts.
pub open spec fn xml_node(
    tag: Seq<char>,
    attributes: Seq<(Seq<char>, Seq<char>)>,
    children: Seq<XmlTree>,
) -> XmlTree {
    XmlTree { tag, attributes, children }
}

/// The model of an element: its name, its attributes in the order the map
/// keeps them, and its element children in order.
pub uninterp spec fn element_model(e: xmltree::Element) -> XmlTree;

/// The element carries nothing beyond what its model holds: no namespace
/// prefix, no namespace, no namespace declarations, and only child elements,
/// each of them plain too.
pub uninterp spec fn is_plain(e: xmltree::Element) -> bool;

/// The bytes of the XML document that xmltree writes for a plain element
/// whose model is `t`, with lines
/// separated by `line_separator` and each level of nesting indented by `indent`.
pub uninterp spec fn emitted_xml_of(t: XmlTree, line_separator: Seq<char>, indent: Seq<char>) -> Seq<u8>;

/// `key` names one of these attributes.
pub open spec fn has_attribute(attrs: Seq<(Seq<char>, Seq<char>)>, key: Seq<char>) -> bool {
    exists|i: int| 0 <= i < attrs.len() && #[trigger] attrs[i].0 == key
}

/// The attributes after setting `key` to `value`: an attribute already named
/// `key` keeps its place and takes the new value; otherwise it is appended.
pub open spec fn with_attribute(
    attrs: Seq<(Seq<char>, Seq<char>)>,
    key: Seq<char>,
    value: Seq<char>,
) -> Seq<(Seq<char>, Seq<char>)> {
    if has_attribute(attrs, key) {
        let i = choose|i: int| 0 <= i < attrs.len() && #[trigger] attrs[i].0 == key;
        attrs.update(i, (key, value))
    } else {
        attrs.push((key, value))
    }
}

/// The value of attribute `key`, if there is one.
pub open spec fn attribute_value(attrs: Seq<(Seq<char>, Seq<char>)>, key: Seq<char>) -> Option<Seq<char>> {
    if has_attribute(attrs, key) {
        let i = choose|i: int| 0 <= i < attrs.len() && #[trigger] attrs[i].0 == key;
        Some(attrs[i].1)
    } else {
        None
    }
}

/// Relies on xmltree::Element::new: an element with the given name, no
/// attributes and no children.
pub assume_specification[ xmltree::Element::new ](name: &str) -> (r: xmltree::Element)
    ensures
        element_model(r) == xml_node(name@, seq![], seq![]),
        is_plain(r),
;

/// Relies on inserting into the `attributes` map of an xmltree::Element, an
/// IndexMap under the `attribute-order` feature: an existing attribute keeps
/// its position and takes the new value, a new one goes last.
#[verifier::external_body]
fn set_attribute(e: &mut xmltree::Element, key: &str, value: &str)
    ensures
        element_model(*final(e)) == xml_node(
            element_model(*old(e)).tag,
            with_attribute(element_model(*old(e)).attributes, key@, value@),
            element_model(*old(e)).children,
        ),
        is_plain(*final(e)) == is_plain(*old(e)),
{
    e.attributes.insert(key.to_string(), value.to_string());
}

/// Relies on pushing onto the `children` list of an xmltree::Element: `child`
/// becomes its last child.
#[verifier::external_body]
fn push_child(e: &mut xmltree::Element, child: xmltree::Element)
    ensures
        element_model(*final(e)) == xml_node(
            element_model(*old(e)).tag,
            element_model(*old(e)).attributes,
            element_model(*old(e)).children.push(element_model(child)),
        ),
        is_plain(*old(e)) && is_plain(child) ==> is_plain(*final(e)),
{
    e.children.push(xmltree::XMLNode::Element(child));
}

/// How a document is laid out: the text between lines, and the text that
/// indents each level of nesting.
pub struct OutputFormat {
    pub line_separator: &'static str,
    pub indent: &'static str,
}

/// The layout of glyph files: lines end with "\n", and each level is
/// indented by two spaces.
pub fn xmlconfig() -> (r: OutputFormat)
    ensures
        r.line_separator@ == "\n"@,
        r.indent@ == "  "@,
{
    OutputFormat { line_separator: "\n", indent: "  " }
}

/// Relies on xmltree::Element::write_with_config into a `Vec<u8>`, with
/// indentation on and the given separator and indent text. For a plain
/// element the writer reads only the name, the attributes in map order and
/// the child elements, so the bytes depend on the model alone. The emitter fails
/// only on unbalanced events, which a tree never produces, or on an I/O error,
/// which writing to memory never gives.
#[verifier::external_body]
fn write_document(e: &xmltree::Element, format: &OutputFormat) -> (r: Vec<u8>)
    requires
        is_plain(*e),
    ensures
        r@ == emitted_xml_of(element_model(*e), format.line_separator@, format.indent@),
{
    let config = xmltree::EmitterConfig::new()
        .line_separator(format.line_separator)
        .indent_string(format.indent)
        .perform_indent(true);
    let mut out: Vec<u8> = Vec::new();
    match e.write_with_config(&mut out, config) {
        Ok(()) => out,
        Err(_) => Vec::new(),
    }
}

/// The view of an optional string.
pub open spec fn opt_view(o: Option<String>) -> Option<Seq<char>> {
    match o {
        Some(s) => Some(s@),
        None => None,
    }
}

/// The view of an optional string slice.
pub open spec fn opt_str_view(o: Option<&str>) -> Option<Seq<char>> {
    match o {
        Some(s) => Some(s@),
        None => None,
    }
}

/// The glyph name used for a requested name: `glyph` where none is given,
/// and otherwise the name without one trailing `.glif`.
pub open spec fn glyph_name_of(name: Option<Seq<char>>) -> Seq<char> {
    match name {
        Some(n) => without_suffix(n, ".glif"@),
        None => "glyph"@,
    }
}

/// The advance width used for a requested width: `0` where none is given.
pub open spec fn glyph_width_of(width: Option<Seq<char>>) -> Seq<char> {
    match width {
        Some(w) => w,
        None => "0"@,
    }
}

/// The attributes of the `advance` element.
pub open spec fn advance_attributes(width: Seq<char>, height: Option<Seq<char>>) -> Seq<(Seq<char>, Seq<char>)> {
    match height {
        Some(h) => seq![("width"@, width), ("height"@, h)],
        None => seq![("width"@, width)],
    }
}

/// The glyph tree for these values: a `glyph` root with attributes `name`
/// and `format="2"`, whose children are `advance`, an empty `outline` and,
/// where an encoding is given, `unicode`, in that order.
pub open spec fn glyph_model(
    name: Seq<char>,
    width: Seq<char>,
    height: Option<Seq<char>>,
    encoding: Option<Seq<char>>,
) -> XmlTree {
    let base = seq![
        xml_node("advance"@, advance_attributes(width, height), seq![]),
        xml_node("outline"@, seq![], seq![]),
    ];
    let children = match encoding {
        Some(h) => base.push(xml_node("unicode"@, seq![("hex"@, h)], seq![])),
        None => base,
    };
    xml_node("glyph"@, seq![("name"@, name), ("format"@, "2"@)], children)
}

/// The glyph file's bytes for these values.
pub open spec fn glif_bytes_of(
    name: Seq<char>,
    width: Seq<char>,
    height: Option<Seq<char>>,
    encoding: Option<Seq<char>>,
) -> Seq<u8> {
    emitted_xml_of(glyph_model(name, width, height, encoding), "\n"@, "  "@)
}

proof fn lemma_new_attribute(attrs: Seq<(Seq<char>, Seq<char>)>, key: Seq<char>, value: Seq<char>)
    requires
        forall|i: int| 0 <= i < attrs.len() ==> attrs[i].0 != key,
    ensures
        with_attribute(attrs, key, value) == attrs.push((key, value)),
{
}

proof fn lemma_distinct_names()
    ensures
        "name"@ != "format"@,
        "width"@ != "height"@,
{
    reveal_strlit("name");
    reveal_strlit("format");
    reveal_strlit("width");
    reveal_strlit("height");
    assert("name"@[0] != "format"@[0]);
    assert("width"@[0] != "height"@[0]);
}

/// What describes one glyph file: its name, its optional hex code point, its
/// advance width and optional advance height, all kept as given text.
pub struct GlyphSpec {
    pub name: String,
    pub encoding: Option<String>,
    pub width: String,
    pub height: Option<String>,
}

fn to_owned_opt(o: Option<&str>) -> (r: Option<String>)
    ensures
        opt_view(r) == opt_str_view(o),
{
    match o {
        Some(s) => Some(s.to_owned()),
        None => None,
    }
}

impl GlyphSpec {
    /// Applies the defaults to the requested values: name `glyph`, width `0`,
    /// and strips a trailing `.glif` from a given name.
    pub fn new(name: Option<&str>, encoding: Option<&str>, width: Option<&str>, height: Option<&str>) -> (r: GlyphSpec)
        ensures
            r.name@ == glyph_name_of(opt_str_view(name)),
            opt_view(r.encoding) == opt_str_view(encoding),
            r.width@ == glyph_width_of(opt_str_view(width)),
            opt_view(r.height) == opt_str_view(height),
    {
        let n = match name {
            Some(n) => trim_suffix(n, ".glif"),
            None => "glyph".to_owned(),
        };
        let w = match width {
            Some(w) => w.to_owned(),
            None => "0".to_owned(),
        };
        GlyphSpec { name: n, encoding: to_owned_opt(encoding), width: w, height: to_owned_opt(height) }
    }
}

/// Builds the XML tree of the glyph file for `spec`.
pub fn build_glyph(spec: &GlyphSpec) -> (r: xmltree::Element)
    ensures
        element_model(r) == glyph_model(spec.name@, spec.width@, opt_view(spec.height), opt_view(spec.encoding)),
        is_plain(r),
{
    proof {
        lemma_distinct_names();
    }
    let mut root = xmltree::Element::new("glyph");
    set_attribute(&mut root, "name", spec.name.as_str());
    proof {
        lemma_new_attribute(seq![], "name"@, spec.name@);
        lemma_new_attribute(seq![("name"@, spec.name@)], "format"@, "2"@);
    }
    set_attribute(&mut root, "format", "2");
    let mut advance = xmltree::Element::new("advance");
    set_attribute(&mut advance, "width", spec.width.as_str());
    proof {
        lemma_new_attribute(seq![], "width"@, spec.width@);
    }
    match &spec.height {
        Some(h) => {
            proof {
                lemma_new_attribute(seq![("width"@, spec.width@)], "height"@, h@);
            }
            set_attribute(&mut advance, "height", h.as_str());
        },
        None => {},
    }
    let outline = xmltree::Element::new("outline");
    push_child(&mut root, advance);
    push_child(&mut root, outline);
    match &spec.encoding {
        Some(enc) => {
            let mut unicode = xmltree::Element::new("unicode");
            set_attribute(&mut unicode, "hex", enc.as_str());
            proof {
                lemma_new_attribute(seq![], "hex"@, enc@);
            }
            push_child(&mut root, unicode);
        },
        None => {},
    }
    assert(element_model(root).attributes =~= seq![("name"@, spec.name@), ("format"@, "2"@)]);
    assert(element_model(root).children[0].attributes =~= advance_attributes(spec.width@, opt_view(spec.height)));
    assert(element_model(root).children =~= glyph_model(spec.name@, spec.width@, opt_view(spec.height), opt_view(spec.encoding)).children);
    root
}

/// The bytes of the glyph file for `spec`, laid out as `xmlconfig` gives.
pub fn glif_document(spec: &GlyphSpec) -> (r: Vec<u8>)
    ensures
        r@ == glif_bytes_of(spec.name@, spec.width@, opt_view(spec.height), opt_view(spec.encoding)),
{
    let tree = build_glyph(spec);
    let format = xmlconfig();
    write_document(&tree, &format)
}

/// The outcome of writing a glyph file, to standard output where no output
/// file is named and to that file otherwise: success at that destination
/// where the whole document reached it, and `FailedGlif` where it did not
/// (for a file, where it could not be created or written).
pub open spec fn is_glif_outcome(r: InitResult, outfile: Option<Seq<char>>, written: bool) -> bool {
    if !written {
        r == InitResult::InitErr(InitError::FailedGlif)
    } else {
        match outfile {
            None => r == InitResult::GlifStdoutOk,
            Some(f) => r matches InitResult::GlifOk(p) && p@ == f,
        }
    }
}

/// Decides the outcome of writing a glyph file to `outfile` (standard output
/// where None), given whether the whole document was written there.
pub fn glif_outcome(outfile: Option<&str>, written: bool) -> (r: InitResult)
    ensures
        is_glif_outcome(r, opt_str_view(outfile), written),
{
    if !written {
        InitResult::InitErr(InitError::FailedGlif)
    } else {
        match outfile {
            None => InitResult::GlifStdoutOk,
            Some(f) => InitResult::GlifOk(f.to_owned()),
        }
    }
}

/// A glyph written in full succeeds, to standard output where no file is
/// named; an output file that cannot be created or written fails with
/// `FailedGlif`.
pub proof fn lemma_glif_exit_status(r: InitResult, outfile: Option<Seq<char>>, written: bool)
    requires
        is_glif_outcome(r, outfile, written),
    ensures
        written ==> result_of(r) == Ok::<(), InitError>(()),
        outfile is None && written ==> r == InitResult::GlifStdoutOk,
        !written ==> result_of(r) == Err::<(), InitError>(InitError::FailedGlif),
{
}

/// A name without a trailing `.glif` and the same name with `.glif` appended
/// give the same glyph name, and so the same glyph file, byte for byte.
pub proof fn lemma_glif_suffix_ignored(
    n: Seq<char>,
    width: Seq<char>,
    height: Option<Seq<char>>,
    encoding: Option<Seq<char>>,
)
    requires
        !has_suffix(n, ".glif"@),
    ensures
        glyph_name_of(Some(n + ".glif"@)) == glyph_name_of(Some(n)),
        glif_bytes_of(glyph_name_of(Some(n + ".glif"@)), width, height, encoding)
            == glif_bytes_of(glyph_name_of(Some(n)), width, height, encoding),
{
    let s = ".glif"@;
    let m = n + s;
    assert(m.subrange(m.len() - s.len(), m.len() as int) =~= s);
    assert(m.subrange(0, m.len() - s.len()) =~= n);
}

/// Reading a glyph tree back gives the name, format, width, height and
/// encoding it was built from.
pub proof fn lemma_glyph_tree_read_back(
    name: Seq<char>,
    width: Seq<char>,
    height: Option<Seq<char>>,
    encoding: Option<Seq<char>>,
)
    ensures
        ({
            let t = glyph_model(name, width, height, encoding);
            &&& attribute_value(t.attributes, "name"@) == Some(name)
            &&& attribute_value(t.attributes, "format"@) == Some("2"@)
            &&& attribute_value(t.children[0].attributes, "width"@) == Some(width)
            &&& attribute_value(t.children[0].attributes, "height"@) == height
            &&& encoding == (if t.children.len() == 3 {
                attribute_value(t.children[2].attributes, "hex"@)
            } else {
                None
            })
        }),
{
    lemma_distinct_names();
    let t = glyph_model(name, width, height, encoding);
    assert(t.attributes[0].0 == "name"@);
    assert(t.attributes[1].0 == "format"@);
    assert(t.children[0].attributes[0].0 == "width"@);
    if let Some(h) = height {
        assert(t.children[0].attributes[1].0 == "height"@);
    }
    if let Some(h) = encoding {
        assert(t.children[2].attributes[0].0 == "hex"@);
    }
}

} // verus!
