//! HTML to Markdown conversion.
//!
//! The conversion itself is an outside library's work; the logic here is how
//! the caller's optional knobs resolve to the conversion configuration, and
//! the exact relation of the public operation to the library's result.

use vstd::prelude::*;

verus! {

/// Options for HTML to Markdown conversion.
pub struct HtmlToMarkdownOptions {
    /// Remove navigation elements, forms, headers, footers.
    pub clean_content: Option<bool>,
    /// Skip images during conversion.
    pub skip_images: Option<bool>,
}

/// Whether content cleaning was requested; absent means no.
pub open spec fn resolved_clean_content(options: Option<HtmlToMarkdownOptions>) -> bool {
    options matches Some(o) && o.clean_content matches Some(true)
}

/// Whether image skipping was requested; absent means no.
pub open spec fn resolved_skip_images(options: Option<HtmlToMarkdownOptions>) -> bool {
    options matches Some(o) && o.skip_images matches Some(true)
}

/// What the conversion library produces for the given input and knobs: the
/// converted Markdown, or nothing when the conversion fails.  The result
/// depends on the input and the knobs alone.
pub uninterp spec fn markdown_conversion(html: Seq<char>, clean_content: bool, skip_images: bool) -> Option<Seq<char>>;

/// Relies on `html_to_markdown_rs::convert`: converts the HTML with content
/// cleaning configured as the aggressive preset removing navigation and
/// forms when `clean_content` is set, and image skipping as given.  The
/// result depends on the input and the two knobs alone, which
/// `markdown_conversion` names.
#[verifier::external_body]
fn convert_html(html: &str, clean_content: bool, skip_images: bool) -> (r: Result<String, String>)
    ensures
        r matches Ok(s) ==> markdown_conversion(html@, clean_content, skip_images) == Some(s@),
        r is Err ==> markdown_conversion(html@, clean_content, skip_images) is None,
{
    let conversion_opts = html_to_markdown_rs::ConversionOptions {
        skip_images,
        preprocessing: html_to_markdown_rs::PreprocessingOptions {
            enabled: clean_content,
            preset: html_to_markdown_rs::PreprocessingPreset::Aggressive,
            remove_navigation: true,
            remove_forms: true,
        },
        ..Default::default()
    };
    match html_to_markdown_rs::convert(html, Some(conversion_opts)) {
        Ok(result) => Ok(result.content.unwrap_or_default()),
        Err(err) => Err(format!("Conversion error: {err}")),
    }
}

/// Converts HTML source to Markdown with optional preprocessing.  Absent
/// options, and absent individual knobs, mean no cleaning and no skipping.
pub fn html_to_markdown(html: &str, options: Option<HtmlToMarkdownOptions>) -> (r: Result<
    String,
    String,
>)
    ensures
        r matches Ok(s) ==> markdown_conversion(
            html@,
            resolved_clean_content(options),
            resolved_skip_images(options),
        ) == Some(s@),
        r is Err ==> markdown_conversion(
            html@,
            resolved_clean_content(options),
            resolved_skip_images(options),
        ) is None,
{
    let (clean_content, skip_images): (bool, bool) = match &options {
        None => (false, false),
        Some(o) => (
            match o.clean_content {
                Some(b) => b,
                None => false,
            },
            match o.skip_images {
                Some(b) => b,
                None => false,
            },
        ),
    };
    convert_html(html, clean_content, skip_images)
}

} // verus!
