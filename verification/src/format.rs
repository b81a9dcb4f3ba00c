//! Output formatter choices. Rendering itself is presentation-layer work and
//! lives outside; the choice of formatter settings from the configured
//! output format is decided here.

use vstd::prelude::*;

use crate::domain::OutputFormat;

verus! {

/// Renders responses as JSON, prettified or compact.
#[derive(Debug, Clone)]
pub struct JsonFormatter {
    pub pretty: bool,
}

impl JsonFormatter {
    pub fn new(pretty: bool) -> (r: Self)
        ensures
            r.pretty == pretty,
    {
        Self { pretty }
    }

    /// JSON output keeps the configured prettiness; a text configuration
    /// falls back to pretty JSON.
    pub fn from_output_format(format: &OutputFormat) -> (r: Self)
        ensures
            r.pretty == (match format {
                OutputFormat::Json { pretty, .. } => *pretty,
                OutputFormat::Text { .. } => true,
            }),
    {
        match format {
            OutputFormat::Json { pretty, .. } => Self::new(*pretty),
            OutputFormat::Text { .. } => Self::new(true),
        }
    }
}

/// Renders responses as human-oriented text.
#[derive(Debug, Clone)]
pub struct TextFormatter {
    pub compact: bool,
}

impl TextFormatter {
    pub fn new(compact: bool) -> (r: Self)
        ensures
            r.compact == compact,
    {
        Self { compact }
    }

    /// Text output keeps the configured compactness; a JSON configuration
    /// falls back to expanded text.
    pub fn from_output_format(format: &OutputFormat) -> (r: Self)
        ensures
            r.compact == (match format {
                OutputFormat::Text { compact } => *compact,
                OutputFormat::Json { .. } => false,
            }),
    {
        match format {
            OutputFormat::Text { compact } => Self::new(*compact),
            OutputFormat::Json { .. } => Self::new(false),
        }
    }
}

} // verus!
