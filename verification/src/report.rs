//! What a conversion hands back to its caller: the result of one that
//! went through, and the description of one that failed.

use vstd::prelude::*;
use vstd::string::StringExecFns;
use simple_xml_builder::XMLElement;
use crate::entity::EntityKind;
use crate::options::ConversionOptions;
use crate::stats::ConversionStats;
use crate::xml::{document_of, xml_document};

verus! {

/// The result of a conversion.
#[derive(Debug, Clone)]
pub struct ConversionResult {
    /// Whether the conversion went through.
    pub success: bool,
    /// A summary for the reader.
    pub message: String,
    /// The statistics, where they were asked for.
    pub stats: Option<ConversionStats>,
    /// The markup, where it was not written to a file.
    pub xml_content: Option<String>,
}

/// Why a conversion failed.
#[derive(Debug, Clone)]
pub enum ConversionError {
    /// The drawing could not be opened or read.
    Load { file: String },
    /// The output file could not be created or written.
    Write,
}

/// The summary of a conversion that went through.
pub open spec fn success_text(name: Seq<char>) -> Seq<char> {
    "Successfully converted "@ + name
}

/// The description of a drawing that could not be loaded.
pub open spec fn load_failure_text(name: Seq<char>) -> Seq<char> {
    "Failed to load "@ + name + "...\n\tMake sure the file is a valid .dxf file."@
}

impl ConversionError {
    /// The description of the failure. A load failure names the drawing.
    pub open spec fn text(self) -> Seq<char> {
        match self {
            ConversionError::Load { file } => load_failure_text(file@),
            ConversionError::Write => "Failed to write output file."@,
        }
    }

    /// The description of the failure.
    pub fn message(&self) -> (message: String)
        ensures
            message@ == self.text(),
    {
        match self {
            ConversionError::Load { file } => {
                let mut message = "Failed to load ".to_owned();
                message.append(file.as_str());
                message.append("...\n\tMake sure the file is a valid .dxf file.");
                message
            },
            ConversionError::Write => "Failed to write output file.".to_owned(),
        }
    }
}

/// Whether `result` is the result of converting the drawing called `name`
/// with the entities `kinds` into `document` under `options`, in
/// `elapsed_ms` milliseconds: it reports success and names the drawing; it
/// holds the statistics if and only if they were asked for, and the markup
/// if and only if it was not to be written to a file. The markup is never
/// empty.
pub open spec fn is_result_of(
    result: ConversionResult,
    name: Seq<char>,
    options: ConversionOptions,
    kinds: Seq<EntityKind>,
    document: XMLElement,
    elapsed_ms: u128,
) -> bool {
    &&& result.success
    &&& result.message@ == success_text(name)
    &&& match result.stats {
        Some(stats) => options.info && stats.counts(kinds) && stats.elapsed_ms == elapsed_ms,
        None => !options.info,
    }
    &&& match result.xml_content {
        Some(markup) => {
            &&& options.verbose
            &&& markup@ == xml_document(document)
            &&& markup@.len() > 0
        },
        None => !options.verbose,
    }
}

/// Concludes a conversion that went through. Entities of a kind without a
/// converter are counted and never make the conversion fail.
pub fn conclude(
    name: &str,
    options: &ConversionOptions,
    kinds: &[EntityKind],
    document: &XMLElement,
    elapsed_ms: u128,
) -> (result: ConversionResult)
    ensures
        is_result_of(result, name@, *options, kinds@, *document, elapsed_ms),
{
    let mut message = "Successfully converted ".to_owned();
    message.append(name);
    let stats = if options.info {
        Some(ConversionStats::tally(kinds, elapsed_ms))
    } else {
        None
    };
    let xml_content = if options.verbose {
        Some(document_of(document))
    } else {
        None
    };
    ConversionResult { success: true, message, stats, xml_content }
}

} // verus!
