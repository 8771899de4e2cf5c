use vstd::prelude::*;

verus! {

pub const DOC_COORDINATOR: &'static str = "doc-coordinator";

pub const DOC_CONTENT_SYNCER: &'static str = "doc-content-syncer";

pub const DOCUSAURUS_EXPERT: &'static str = "docusaurus-expert";

pub const UI_DESIGN_EXPERT: &'static str = "ui-design-expert";

pub const CSS_EXPERT: &'static str = "css-expert";

pub const DOC_RUNNER: &'static str = "doc-runner";

pub const DOC_VERIFIER: &'static str = "doc-verifier";

} // verus!
