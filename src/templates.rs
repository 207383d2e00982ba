use vstd::prelude::*;

verus! {

/// The property list at the root of a bundle naming its creator and format version.
pub const METAINFO_PLIST: &'static str = "<?xml version=\"1.0\" encoding=\"UTF-8\"?>\n<!DOCTYPE plist PUBLIC \"-//Apple//DTD PLIST 1.0//EN\" \"http://www.apple.com/DTDs/PropertyList-1.0.dtd\">\n<plist version=\"1.0\">\n<dict>\n    <key>creator</key>\n    <string>org.MFEK</string>\n    <key>formatVersion</key>\n    <integer>3</integer>\n</dict>\n</plist>";

/// The property list at the root of a bundle listing its one layer, `glyphs`.
pub const LAYERCONTENTS_PLIST: &'static str = "<?xml version=\"1.0\" encoding=\"UTF-8\"?>\n<!DOCTYPE plist PUBLIC \"-//Apple//DTD PLIST 1.0//EN\" \"http://www.apple.com/DTDs/PropertyList-1.0.dtd\">\n<plist version=\"1.0\">\n<array>\n\t<array>\n\t\t<string>public.default</string>\n\t\t<string>glyphs</string>\n\t</array>\n</array>\n</plist>";

/// The property list of the `glyphs` directory, mapping no glyphs.
pub const CONTENTS_PLIST: &'static str = "<?xml version=\"1.0\" encoding=\"UTF-8\"?>\n<!DOCTYPE plist PUBLIC \"-//Apple//DTD PLIST 1.0//EN\" \"http://www.apple.com/DTDs/PropertyList-1.0.dtd\">\n<plist version=\"1.0\">\n<dict>\n</dict>\n</plist>";

/// The fixed files that every new bundle holds.
#[derive(Debug, Clone, Copy, PartialEq, Eq, Structural)]
pub enum Template {
    Metainfo,
    LayerContents,
    Contents,
}

pub open spec fn file_name_of(t: Template) -> Seq<char> {
    match t {
        Template::Metainfo => "metainfo.plist"@,
        Template::LayerContents => "layercontents.plist"@,
        Template::Contents => "contents.plist"@,
    }
}

pub open spec fn contents_of(t: Template) -> Seq<char> {
    match t {
        Template::Metainfo => METAINFO_PLIST@,
        Template::LayerContents => LAYERCONTENTS_PLIST@,
        Template::Contents => CONTENTS_PLIST@,
    }
}

impl Template {
    /// The file's name within its directory.
    pub fn file_name(&self) -> (r: &'static str)
        ensures
            r@ == file_name_of(*self),
    {
        match self {
            Template::Metainfo => "metainfo.plist",
            Template::LayerContents => "layercontents.plist",
            Template::Contents => "contents.plist",
        }
    }

    /// The file's exact text.
    pub fn contents(&self) -> (r: &'static str)
        ensures
            r@ == contents_of(*self),
    {
        match self {
            Template::Metainfo => METAINFO_PLIST,
            Template::LayerContents => LAYERCONTENTS_PLIST,
            Template::Contents => CONTENTS_PLIST,
        }
    }
}

} // verus!
