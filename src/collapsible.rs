//! An expandable entry with a title, a subtitle and content, and the
//! catalogue of third-party licenses shown with it.
use vstd::prelude::*;

verus! {

#[derive(Debug, Clone)]
pub struct Collapsible<T> {
    title: String,
    subtitle: String,
    content_data: T,
    icons: [Option<String>; 2],
    is_expanded: bool,
}

pub open spec fn opt_view(o: Option<&str>) -> Option<Seq<char>> {
    match o {
        Some(s) => Some(s@),
        None => None,
    }
}

pub open spec fn opt_string_view(o: Option<String>) -> Option<Seq<char>> {
    match o {
        Some(s) => Some(s@),
        None => None,
    }
}

fn to_owned_opt(o: Option<&str>) -> (r: Option<String>)
    ensures
        opt_string_view(r) == opt_view(o),
{
    match o {
        Some(s) => Some(s.to_owned()),
        None => None,
    }
}

impl<T> Collapsible<T> {
    pub closed spec fn title_spec(&self) -> Seq<char> {
        self.title@
    }

    pub closed spec fn subtitle_spec(&self) -> Seq<char> {
        self.subtitle@
    }

    pub closed spec fn content_spec(&self) -> &T {
        &self.content_data
    }

    pub closed spec fn icon_spec(&self, i: int) -> Option<Seq<char>> {
        opt_string_view(self.icons@[i])
    }

    pub closed spec fn expanded_spec(&self) -> bool {
        self.is_expanded
    }

    /// A collapsed entry; `icons` go before the title and the subtitle.
    pub fn new(title: &str, subtitle: &str, content_data: T, icons: [Option<&str>; 2]) -> (r: Self)
        ensures
            r.title_spec() == title@,
            r.subtitle_spec() == subtitle@,
            r.content_spec() == content_data,
            r.icon_spec(0) == opt_view(icons@[0]),
            r.icon_spec(1) == opt_view(icons@[1]),
            !r.expanded_spec(),
    {
        let first = to_owned_opt(icons[0]);
        let second = to_owned_opt(icons[1]);
        Collapsible {
            title: title.to_owned(),
            subtitle: subtitle.to_owned(),
            content_data,
            icons: [first, second],
            is_expanded: false,
        }
    }

    pub fn content_data(&self) -> (r: &T)
        ensures
            r == self.content_spec(),
    {
        &self.content_data
    }

    pub fn title(&self) -> (r: &String)
        ensures
            r@ == self.title_spec(),
    {
        &self.title
    }

    pub fn subtitle(&self) -> (r: &String)
        ensures
            r@ == self.subtitle_spec(),
    {
        &self.subtitle
    }

    pub fn icon(&self, i: usize) -> (r: &Option<String>)
        requires
            i < 2,
        ensures
            opt_string_view(*r) == self.icon_spec(i as int),
    {
        &self.icons[i]
    }

    pub fn is_expanded(&self) -> (r: bool)
        ensures
            r == self.expanded_spec(),
    {
        self.is_expanded
    }

    /// Expands or collapses the entry; nothing else changes.
    pub fn set_expanded(&mut self, is_expanded: bool)
        ensures
            final(self).expanded_spec() == is_expanded,
            final(self).title_spec() == old(self).title_spec(),
            final(self).subtitle_spec() == old(self).subtitle_spec(),
            final(self).content_spec() == old(self).content_spec(),
            final(self).icon_spec(0) == old(self).icon_spec(0),
            final(self).icon_spec(1) == old(self).icon_spec(1),
    {
        self.is_expanded = is_expanded;
    }
}

/// Where a third-party project lives and the names of its license files,
/// relative to the directory that holds them.
pub struct LicenseData {
    pub url: String,
    pub license_files: Vec<String>,
}

impl LicenseData {
    pub fn new(url: &str, license_files: &[&str]) -> (r: Self)
        ensures
            r.url@ == url@,
            r.license_files@.len() == license_files@.len(),
            forall|i: int|
                0 <= i < r.license_files@.len() ==> (#[trigger] r.license_files@[i])@
                    == license_files@[i]@,
    {
        let mut files: Vec<String> = Vec::new();
        let mut i: usize = 0;
        while i < license_files.len()
            invariant
                i <= license_files@.len(),
                files@.len() == i,
                forall|k: int| 0 <= k < i ==> (#[trigger] files@[k])@ == license_files@[k]@,
            decreases license_files@.len() - i,
        {
            files.push(license_files[i].to_owned());
            i += 1;
        }
        LicenseData { url: url.to_owned(), license_files: files }
    }
}

/// Icon of a license entry's subtitle.
pub const LICENSE_ICON: &'static str = "scale-balanced";

/// License of works in the public domain, which come without license files.
pub const PUBLIC_DOMAIN: &'static str = "Public Domain";

/// A collapsed license entry titled with the project's name, subtitled with
/// its license, with a homepage, and with license files unless the work is in
/// the public domain.
pub open spec fn is_license_entry(e: Collapsible<LicenseData>) -> bool {
    &&& !e.expanded_spec()
    &&& e.icon_spec(0) is None
    &&& e.icon_spec(1) == Some(LICENSE_ICON@)
    &&& e.content_spec().url@.len() > 0
    &&& (e.content_spec().license_files@.len() == 0 <==> e.subtitle_spec() == PUBLIC_DOMAIN@)
}

fn license_entry(title: &str, license: &str, url: &str, files: &[&str]) -> (r: Collapsible<
    LicenseData,
>)
    requires
        url@.len() > 0,
        files@.len() == 0 <==> license@ == PUBLIC_DOMAIN@,
    ensures
        is_license_entry(r),
        r.title_spec() == title@,
        r.subtitle_spec() == license@,
        r.content_spec().url@ == url@,
        r.content_spec().license_files@.len() == files@.len(),
{
    Collapsible::new(title, license, LicenseData::new(url, files), [None, Some(LICENSE_ICON)])
}

/// The projects this application builds on, in three groups: projects adapted
/// into it, libraries it depends on, and other works (fonts).
pub fn load_licenses() -> (r: [Vec<Collapsible<LicenseData>>; 3])
    ensures
        r@[0]@.len() == 4,
        r@[1]@.len() == 21,
        r@[2]@.len() == 1,
        forall|g: int, i: int|
            0 <= g < 3 && 0 <= i < r@[g]@.len() ==> is_license_entry(#[trigger] r@[g]@[i]),
{
    proof {
        reveal_strlit("BSD-3-Clause license");
        reveal_strlit("CC BY 4.0 / SIL OFL 1.1");
        reveal_strlit("MIT / Apache 2.0 licenses");
        reveal_strlit("MIT / Zlib / Apache 2.0 licenses");
        reveal_strlit("MIT license");
        reveal_strlit("Public Domain");
        assert("BSD-3-Clause license"@.len() != PUBLIC_DOMAIN@.len());
        assert("CC BY 4.0 / SIL OFL 1.1"@.len() != PUBLIC_DOMAIN@.len());
        assert("MIT / Apache 2.0 licenses"@.len() != PUBLIC_DOMAIN@.len());
        assert("MIT / Zlib / Apache 2.0 licenses"@.len() != PUBLIC_DOMAIN@.len());
        assert("MIT license"@.len() != PUBLIC_DOMAIN@.len());
        reveal_strlit("github.com/amodm/webbrowser-rs");
        reveal_strlit("https://doi.org/10.5281/zenodo.1243862");
        reveal_strlit("https://fontawesome.com");
        reveal_strlit("https://github.com/BitFlaker/edf-rs");
        reveal_strlit("https://github.com/HEnquist/realfft");
        reveal_strlit("https://github.com/Lokathor/bytemuck");
        reveal_strlit("https://github.com/PolyMeilex/rfd");
        reveal_strlit("https://github.com/RReverser/serde-xml-rs");
        reveal_strlit("https://github.com/RustCrypto/hashes");
        reveal_strlit("https://github.com/chronotope/chrono");
        reveal_strlit("https://github.com/danielmbomfim/iced_font_awesome");
        reveal_strlit("https://github.com/hbldh/lspopt");
        reveal_strlit("https://github.com/iced-rs/iced");
        reveal_strlit("https://github.com/jturner314/ndarray-npy");
        reveal_strlit("https://github.com/kornelski/xml-rs");
        reveal_strlit("https://github.com/raphaelvallat/yasa");
        reveal_strlit("https://github.com/rayon-rs/rayon");
        reveal_strlit("https://github.com/rusqlite/rusqlite");
        reveal_strlit("https://github.com/rust-cli/env_logger");
        reveal_strlit("https://github.com/rust-itertools/itertools");
        reveal_strlit("https://github.com/rust-lang/log");
        reveal_strlit("https://github.com/rust-ndarray/ndarray");
        reveal_strlit("https://github.com/scipy/scipy");
        reveal_strlit("https://github.com/serde-rs/json");
        reveal_strlit("https://github.com/serde-rs/serde");
        reveal_strlit("https://www.sqlite.org/copyright.html");
    }
    let mut adapted: Vec<Collapsible<LicenseData>> = Vec::new();
    adapted.push(license_entry("lspopt", "MIT license", "https://github.com/hbldh/lspopt", &["lspopt/LICENSE"]));
    adapted.push(license_entry("Scientific colour maps", "MIT license", "https://doi.org/10.5281/zenodo.1243862", &["scientific_colour_maps/LICENSE"]));
    adapted.push(license_entry("SciPy", "BSD-3-Clause license", "https://github.com/scipy/scipy", &["scipy/LICENSE"]));
    adapted.push(license_entry("Yasa", "BSD-3-Clause license", "https://github.com/raphaelvallat/yasa", &["yasa/LICENSE"]));
    let mut libraries: Vec<Collapsible<LicenseData>> = Vec::new();
    libraries.push(license_entry("iced", "MIT license", "https://github.com/iced-rs/iced", &["_libraries/iced/LICENSE"]));
    libraries.push(license_entry("iced_font_awesome", "MIT license", "https://github.com/danielmbomfim/iced_font_awesome", &["_libraries/iced_font_awesome/LICENSE"]));
    libraries.push(license_entry("bytemuck", "MIT / Zlib / Apache 2.0 licenses", "https://github.com/Lokathor/bytemuck", &["_libraries/bytemuck/LICENSE-MIT", "_libraries/bytemuck/LICENSE-ZLIB", "_libraries/bytemuck/LICENSE-APACHE"]));
    libraries.push(license_entry("ndarray", "MIT license", "https://github.com/rust-ndarray/ndarray", &["_libraries/ndarray/LICENSE"]));
    libraries.push(license_entry("ndarray-npy", "MIT license", "https://github.com/jturner314/ndarray-npy", &["_libraries/ndarray-npy/LICENSE"]));
    libraries.push(license_entry("rayon", "MIT / Apache 2.0 licenses", "https://github.com/rayon-rs/rayon", &["_libraries/rayon/LICENSE-MIT", "_libraries/rayon/LICENSE-APACHE"]));
    libraries.push(license_entry("realfft", "MIT license", "https://github.com/HEnquist/realfft", &["_libraries/realfft/LICENSE"]));
    libraries.push(license_entry("log", "MIT license", "https://github.com/rust-lang/log", &["_libraries/log/LICENSE"]));
    libraries.push(license_entry("env_logger", "MIT / Apache 2.0 licenses", "https://github.com/rust-cli/env_logger", &["_libraries/env_logger/LICENSE-MIT", "_libraries/env_logger/LICENSE-APACHE"]));
    libraries.push(license_entry("edf-rs", "MIT license", "https://github.com/BitFlaker/edf-rs", &["_libraries/edf-rs/LICENSE"]));
    libraries.push(license_entry("rfd", "MIT license", "https://github.com/PolyMeilex/rfd", &["_libraries/rfd/LICENSE"]));
    libraries.push(license_entry("xml", "MIT license", "https://github.com/kornelski/xml-rs", &["_libraries/xml/LICENSE"]));
    libraries.push(license_entry("serde-xml-rs", "MIT license", "https://github.com/RReverser/serde-xml-rs", &["_libraries/serde-xml-rs/LICENSE"]));
    libraries.push(license_entry("serde_json", "MIT license", "https://github.com/serde-rs/json", &["_libraries/serde_json/LICENSE"]));
    libraries.push(license_entry("serde", "MIT license", "https://github.com/serde-rs/serde", &["_libraries/serde/LICENSE"]));
    libraries.push(license_entry("rusqlite", "MIT license", "https://github.com/rusqlite/rusqlite", &["_libraries/rusqlite/LICENSE"]));
    libraries.push(license_entry("SQLite", PUBLIC_DOMAIN, "https://www.sqlite.org/copyright.html", &[]));
    libraries.push(license_entry("chrono", "MIT / Apache 2.0 licenses", "https://github.com/chronotope/chrono", &["_libraries/chrono/LICENSE-MIT", "_libraries/chrono/LICENSE-APACHE"]));
    libraries.push(license_entry("itertools", "MIT license", "https://github.com/rust-itertools/itertools", &["_libraries/itertools/LICENSE"]));
    libraries.push(license_entry("webbrowser", "MIT license", "github.com/amodm/webbrowser-rs", &["_libraries/webbrowser/LICENSE"]));
    libraries.push(license_entry("md-5", "MIT license", "https://github.com/RustCrypto/hashes", &["_libraries/md-5/LICENSE"]));
    let mut other: Vec<Collapsible<LicenseData>> = Vec::new();
    other.push(license_entry("Font Awesome", "CC BY 4.0 / SIL OFL 1.1", "https://fontawesome.com", &["_other/FontAwesome/LICENSE"]));
    [adapted, libraries, other]
}

} // verus!
