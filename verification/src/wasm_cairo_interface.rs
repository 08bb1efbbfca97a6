//! What the entry points for a host that hands the source in as a string
//! decide before the front end is called: which crate the source becomes, and
//! which list of allowed libfuncs a contract is checked against.

use vstd::prelude::*;
use vstd::string::*;

verus! {

/// How the crate of a single source file is set up.
#[derive(Clone, Debug, PartialEq, Eq)]
pub enum ProjectSetup {
    /// The file is the root of a crate that is named after its directory.
    CrateRoot,
    /// The file is the one module of a crate of its own, which is named after
    /// the module.
    SingleFile { crate_name: String },
}

/// How the crate of a source file with the given module name is set up: a
/// file named `lib` is the root of the crate of its directory, any other file
/// is a crate of its own.
pub fn setup_single_file_project_with_input_string(module_name: &str) -> (setup: ProjectSetup)
    ensures
        match setup {
            ProjectSetup::CrateRoot => module_name@ == "lib"@,
            ProjectSetup::SingleFile { crate_name } => module_name@ != "lib"@ && crate_name@
                == module_name@,
        },
{
    let name = module_name.to_owned();
    if name == "lib".to_owned() {
        ProjectSetup::CrateRoot
    } else {
        ProjectSetup::SingleFile { crate_name: name }
    }
}

/// Which list of allowed libfuncs a contract is checked against.
#[derive(Clone, Debug, PartialEq, Eq)]
pub enum ListSelector {
    /// The list of the given name.
    ListName(String),
    /// The list in the given file.
    ListFile(String),
    /// The list that is taken where none is asked for.
    DefaultList,
}

impl ListSelector {
    /// The selector for a list that is named, or given in a file, or
    /// neither. There is none for a list that is both.
    pub fn new(list_name: Option<String>, list_file: Option<String>) -> (res: Option<ListSelector>)
        ensures
            res == match (list_name, list_file) {
                (Some(_), Some(_)) => None,
                (Some(name), None) => Some(ListSelector::ListName(name)),
                (None, Some(file)) => Some(ListSelector::ListFile(file)),
                (None, None) => Some(ListSelector::DefaultList),
            },
    {
        match (list_name, list_file) {
            (Some(_), Some(_)) => None,
            (Some(name), None) => Some(ListSelector::ListName(name)),
            (None, Some(file)) => Some(ListSelector::ListFile(file)),
            (None, None) => Some(ListSelector::DefaultList),
        }
    }
}

/// What the front end is asked to compile a contract with.
#[derive(Clone, Debug, PartialEq, Eq)]
pub struct StarknetCompileRequest {
    /// The name of the module that the source becomes.
    pub module_name: String,
    /// The path of the contract in the crate, where one is picked.
    pub contract_path: Option<String>,
    /// Whether the identifiers of the Sierra program are replaced by names.
    pub replace_ids: bool,
    /// The list of allowed libfuncs.
    pub allowed_libfuncs_list: ListSelector,
}

/// What the front end is asked to compile the contract in a string with. The
/// list of allowed libfuncs may be named or given in a file, not both.
pub fn starknet_wasm_compile_with_input_string(
    module_name: &str,
    replace_ids: bool,
    contract_path: Option<String>,
    allowed_libfuncs_list_name: Option<String>,
    allowed_libfuncs_list_file: Option<String>,
) -> (request: StarknetCompileRequest)
    requires
        allowed_libfuncs_list_name is None || allowed_libfuncs_list_file is None,
    ensures
        request.module_name@ == module_name@,
        request.contract_path == contract_path,
        request.replace_ids == replace_ids,
        Some(request.allowed_libfuncs_list) == (match (
            allowed_libfuncs_list_name,
            allowed_libfuncs_list_file,
        ) {
            (Some(_), Some(_)) => None,
            (Some(name), None) => Some(ListSelector::ListName(name)),
            (None, Some(file)) => Some(ListSelector::ListFile(file)),
            (None, None) => Some(ListSelector::DefaultList),
        }),
{
    let allowed_libfuncs_list = match (allowed_libfuncs_list_name, allowed_libfuncs_list_file) {
        (Some(name), _) => ListSelector::ListName(name),
        (None, Some(file)) => ListSelector::ListFile(file),
        (None, None) => ListSelector::DefaultList,
    };
    StarknetCompileRequest {
        module_name: module_name.to_owned(),
        contract_path,
        replace_ids,
        allowed_libfuncs_list,
    }
}

} // verus!
