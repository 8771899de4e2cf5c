use vstd::prelude::*;

verus! {

pub const DOCS_START: &'static str = "docs-start";

pub const DOCS_ANALYZE_CONTENT: &'static str = "docs-analyze-content";

pub const DOCS_CONTENT_ANALYZED: &'static str = "docs-content-analyzed";

pub const DOCS_ANALYZE_DOCUSAURUS: &'static str = "docs-analyze-docusaurus";

pub const DOCS_DOCUSAURUS_ANALYZED: &'static str = "docs-docusaurus-analyzed";

pub const DOCS_ANALYZE_UI: &'static str = "docs-analyze-ui";

pub const DOCS_UI_ANALYZED: &'static str = "docs-ui-analyzed";

pub const DOCS_ANALYZE_CSS: &'static str = "docs-analyze-css";

pub const DOCS_CSS_ANALYZED: &'static str = "docs-css-analyzed";

pub const DOCS_EXECUTE: &'static str = "docs-execute";

pub const DOCS_EXECUTION_COMPLETE: &'static str = "docs-execution-complete";

pub const DOCS_VERIFY: &'static str = "docs-verify";

pub const DOCS_VERIFICATION_COMPLETE: &'static str = "docs-verification-complete";

pub const DOCS_COMPLETE: &'static str = "docs-complete";

} // verus!
