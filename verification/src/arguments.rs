//! The export argument model: one job's configuration and its rendering into
//! the ordered command-line token sequence the desktop application expects.

use vstd::prelude::*;
use vstd::string::StringExecFns;

verus! {

/// One export job's configuration, immutable once built. Optional fields that
/// are absent are simply omitted from the rendered tokens; the model does not
/// enforce mutual exclusion between `all_pages`, `page_index` and
/// `page_range` — setting a coherent combination is the caller's concern.
pub struct ExportArguments {
    pub recursive: bool,
    pub output: Option<String>,
    pub input: String,
    pub format: String,
    pub border: String,
    pub scale: Option<String>,
    pub width: Option<String>,
    pub height: Option<String>,
    pub crop: bool,
    pub embed_diagram: bool,
    pub transparent: bool,
    pub quality: String,
    pub uncompressed: bool,
    pub all_pages: bool,
    pub page_index: Option<String>,
    pub page_range: Option<String>,
    pub embed_svg_images: bool,
    pub enable_plugins: bool,
    pub raw: Option<String>,
}

/// The mathematical image of a configuration: every string field as its
/// character sequence.
pub ghost struct ExportArgumentsView {
    pub recursive: bool,
    pub output: Option<Seq<char>>,
    pub input: Seq<char>,
    pub format: Seq<char>,
    pub border: Seq<char>,
    pub scale: Option<Seq<char>>,
    pub width: Option<Seq<char>>,
    pub height: Option<Seq<char>>,
    pub crop: bool,
    pub embed_diagram: bool,
    pub transparent: bool,
    pub quality: Seq<char>,
    pub uncompressed: bool,
    pub all_pages: bool,
    pub page_index: Option<Seq<char>>,
    pub page_range: Option<Seq<char>>,
    pub embed_svg_images: bool,
    pub enable_plugins: bool,
    pub raw: Option<Seq<char>>,
}

/// The character sequence of an optional string, kept optional.
pub open spec fn opt_view(value: Option<String>) -> Option<Seq<char>> {
    match value {
        Some(s) => Some(s@),
        None => None,
    }
}

impl View for ExportArguments {
    type V = ExportArgumentsView;

    open spec fn view(&self) -> ExportArgumentsView {
        ExportArgumentsView {
            recursive: self.recursive,
            output: opt_view(self.output),
            input: self.input@,
            format: self.format@,
            border: self.border@,
            scale: opt_view(self.scale),
            width: opt_view(self.width),
            height: opt_view(self.height),
            crop: self.crop,
            embed_diagram: self.embed_diagram,
            transparent: self.transparent,
            quality: self.quality@,
            uncompressed: self.uncompressed,
            all_pages: self.all_pages,
            page_index: opt_view(self.page_index),
            page_range: opt_view(self.page_range),
            embed_svg_images: self.embed_svg_images,
            enable_plugins: self.enable_plugins,
            raw: opt_view(self.raw),
        }
    }
}

/// The views of a rendered token list, in order.
pub open spec fn views_of(tokens: Seq<String>) -> Seq<Seq<char>> {
    tokens.map_values(|t: String| t@)
}

/// A lone flag token, present exactly when `on` holds.
pub open spec fn flag_tokens(name: Seq<char>, on: bool) -> Seq<Seq<char>> {
    if on {
        seq![name]
    } else {
        Seq::empty()
    }
}

/// A flag token followed by its value token.
pub open spec fn value_tokens(name: Seq<char>, value: Seq<char>) -> Seq<Seq<char>> {
    seq![name, value]
}

/// A flag token and its value token, both present exactly when the value is.
pub open spec fn optional_value_tokens(name: Seq<char>, value: Option<Seq<char>>) -> Seq<
    Seq<char>,
> {
    match value {
        Some(v) => seq![name, v],
        None => Seq::empty(),
    }
}

/// The single free-form token, verbatim, if present.
pub open spec fn raw_tokens(raw: Option<Seq<char>>) -> Seq<Seq<char>> {
    match raw {
        Some(r) => seq![r],
        None => Seq::empty(),
    }
}

/// Every rendered token before the input path, in the fixed order the desktop
/// application expects: the export marker first, then the recursion flag, the
/// free-form token, and the structured flags.
pub open spec fn export_option_tokens(c: ExportArgumentsView) -> Seq<Seq<char>> {
    seq!["--export"@] + flag_tokens("--recursive"@, c.recursive) + raw_tokens(c.raw)
        + optional_value_tokens("--output"@, c.output) + value_tokens("--format"@, c.format)
        + value_tokens("--quality"@, c.quality) + flag_tokens("--transparent"@, c.transparent)
        + flag_tokens("--embed-diagram"@, c.embed_diagram) + value_tokens("--border"@, c.border)
        + optional_value_tokens("--scale"@, c.scale) + optional_value_tokens("--width"@, c.width)
        + optional_value_tokens("--height"@, c.height) + flag_tokens("--crop"@, c.crop)
        + flag_tokens("--all-pages"@, c.all_pages) + optional_value_tokens(
        "--page-index"@,
        c.page_index,
    ) + optional_value_tokens("--page-range"@, c.page_range) + flag_tokens(
        "--uncompressed"@,
        c.uncompressed,
    ) + flag_tokens("--embed-svg-images"@, c.embed_svg_images) + flag_tokens(
        "--enable-plugins"@,
        c.enable_plugins,
    )
}

/// The full rendered token sequence of one configuration: the option tokens in
/// their fixed order, then the input path as the final token.
pub open spec fn export_tokens(c: ExportArgumentsView) -> Seq<Seq<char>> {
    export_option_tokens(c) + seq![c.input]
}

/// Appends one token.
pub(crate) fn push_token(tokens: &mut Vec<String>, token: String)
    ensures
        views_of(final(tokens)@) == views_of(old(tokens)@) + seq![token@],
{
    let ghost t = token@;
    tokens.push(token);
    proof {
        assert(views_of(tokens@) =~= views_of(old(tokens)@) + seq![t]);
    }
}

/// Appends a lone flag when `on` holds.
fn push_flag(tokens: &mut Vec<String>, name: &str, on: bool)
    ensures
        views_of(final(tokens)@) == views_of(old(tokens)@) + flag_tokens(name@, on),
{
    if on {
        push_token(tokens, String::from_str(name));
    } else {
        proof {
            assert(views_of(tokens@) =~= views_of(tokens@) + flag_tokens(name@, false));
        }
    }
}

/// Appends a flag and its value.
fn push_value(tokens: &mut Vec<String>, name: &str, value: &String)
    ensures
        views_of(final(tokens)@) == views_of(old(tokens)@) + value_tokens(name@, value@),
{
    push_token(tokens, String::from_str(name));
    push_token(tokens, value.clone());
    proof {
        assert((views_of(old(tokens)@) + seq![name@]) + seq![value@] =~= views_of(old(tokens)@)
            + value_tokens(name@, value@));
    }
}

/// Appends a flag and its value when the value is present.
fn push_optional_value(tokens: &mut Vec<String>, name: &str, value: &Option<String>)
    ensures
        views_of(final(tokens)@) == views_of(old(tokens)@) + optional_value_tokens(
            name@,
            opt_view(*value),
        ),
{
    match value {
        Some(v) => {
            push_value(tokens, name, v);
        },
        None => {
            proof {
                assert(views_of(tokens@) =~= views_of(tokens@) + optional_value_tokens(
                    name@,
                    None,
                ));
            }
        },
    }
}

/// Appends the free-form token when it is present.
fn push_raw(tokens: &mut Vec<String>, raw: &Option<String>)
    ensures
        views_of(final(tokens)@) == views_of(old(tokens)@) + raw_tokens(opt_view(*raw)),
{
    match raw {
        Some(r) => {
            push_token(tokens, r.clone());
        },
        None => {
            proof {
                assert(views_of(tokens@) =~= views_of(tokens@) + raw_tokens(None));
            }
        },
    }
}

impl ExportArguments {
    /// Renders the configuration into the ordered token sequence. Rendering is
    /// pure and never fails: absent optional fields are omitted in place, and
    /// the input path is always the final token.
    pub fn as_shell_arguments(&self) -> (r: Vec<String>)
        ensures
            views_of(r@) == export_tokens(self@),
    {
        let mut tokens: Vec<String> = Vec::new();
        proof {
            assert(views_of(tokens@) =~= Seq::<Seq<char>>::empty());
        }
        push_token(&mut tokens, String::from_str("--export"));
        proof {
            assert(Seq::<Seq<char>>::empty() + seq!["--export"@] =~= seq!["--export"@]);
        }
        push_flag(&mut tokens, "--recursive", self.recursive);
        push_raw(&mut tokens, &self.raw);
        push_optional_value(&mut tokens, "--output", &self.output);
        push_value(&mut tokens, "--format", &self.format);
        push_value(&mut tokens, "--quality", &self.quality);
        push_flag(&mut tokens, "--transparent", self.transparent);
        push_flag(&mut tokens, "--embed-diagram", self.embed_diagram);
        push_value(&mut tokens, "--border", &self.border);
        push_optional_value(&mut tokens, "--scale", &self.scale);
        push_optional_value(&mut tokens, "--width", &self.width);
        push_optional_value(&mut tokens, "--height", &self.height);
        push_flag(&mut tokens, "--crop", self.crop);
        push_flag(&mut tokens, "--all-pages", self.all_pages);
        push_optional_value(&mut tokens, "--page-index", &self.page_index);
        push_optional_value(&mut tokens, "--page-range", &self.page_range);
        push_flag(&mut tokens, "--uncompressed", self.uncompressed);
        push_flag(&mut tokens, "--embed-svg-images", self.embed_svg_images);
        push_flag(&mut tokens, "--enable-plugins", self.enable_plugins);
        push_token(&mut tokens, self.input.clone());
        tokens
    }
}

/// Last-token law: whatever the optional fields hold, the rendered token
/// sequence is nonempty and its final token is the input path verbatim.
pub proof fn lemma_last_token_is_input(c: ExportArgumentsView)
    ensures
        export_tokens(c).len() >= 1,
        export_tokens(c).last() == c.input,
{
    assert(export_tokens(c).last() == seq![c.input][0]);
}

} // verus!
