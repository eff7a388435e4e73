//! Virtual directory paths: the `source[@refspec][[sub_folder]]` grammar,
//! its classification into local folders, local archives, remote archives
//! and git repositories, and the rendering of such paths back to text; the
//! decisions of the policy engine's host interface; and the names and
//! template delimiters of the code generator.

pub mod path_grammar;
pub mod error;
pub mod text;
pub mod vdir_types;
pub mod roundtrip;
pub mod host_abi;
pub mod jinja_syntax;
pub mod sub_folder_laws;
pub mod path_laws;
