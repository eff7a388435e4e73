//! Names and template delimiters of the code generator.

use vstd::prelude::*;

verus! {

/// Name of the Weaver configuration file.
pub const WEAVER_YAML: &'static str = "weaver.yaml";

/// Start of a Jinja block.
pub const BLOCK_START: &'static str = "{%";

/// End of a Jinja block.
pub const BLOCK_END: &'static str = "%}";

/// Start of a Jinja variable.
pub const VARIABLE_START: &'static str = "{{";

/// End of a Jinja variable.
pub const VARIABLE_END: &'static str = "}}";

/// Start of a Jinja comment.
pub const COMMENT_START: &'static str = "{#";

/// End of a Jinja comment.
pub const COMMEND_END: &'static str = "#}";

} // verus!
