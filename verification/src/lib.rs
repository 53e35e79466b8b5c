pub mod accessor;
pub mod add_workspace;
pub mod cargo_code_action;
pub mod cargo_document_link;
pub mod cargo_goto;
pub mod cargo_hover;
pub mod cargo_lock;
pub mod dependency_hints;
pub mod dependency_link;
pub mod did_open;
pub mod document;
pub mod feature_link;
pub mod feature_navigation;
pub mod feature_usage;
pub mod inherit_dependency;
pub mod inlay;
pub mod insertion;
pub mod keyword;
pub mod manifest_cache;
pub mod members;
pub mod nagi;
pub mod order;
pub mod pep508;
pub mod lock_cache;
pub mod py_accessor;
pub mod py_code_action;
pub mod py_dependency;
pub mod py_did_open;
pub mod py_goto;
pub mod py_hover;
pub mod py_inlay;
pub mod registry_hints;
pub mod text;
pub mod tombi_document_link;
pub mod uv_lock;
pub mod validate;
pub mod workspace_link;
pub mod zed;
