//! The registry of a program's declarations: it resolves the identifiers of
//! concrete types, libfuncs and functions, and holds that each is declared
//! once.

use vstd::prelude::*;
use vstd::string::*;
use crate::sierra::ids::{id_text, id_to_string, ConcreteLibFuncId, ConcreteTypeId, FunctionId};
use crate::sierra::program::{
    Function,
    LibFuncDeclaration,
    Program,
    TypeDeclaration,
    TypeInfo,
};

verus! {

/// Why a generic type or libfunc could not be made concrete.
#[derive(Clone, Debug, PartialEq, Eq)]
pub enum SpecializationError {
    /// A generic argument, or what was declared of the type, is not supported.
    UnsupportedGenericArg,
    /// The type that is asked for was not declared in the program.
    TypeWasNotDeclared,
}

/// Why a registry could not be built, or an identifier not be resolved.
#[derive(Clone, Debug, PartialEq, Eq)]
pub enum ProgramRegistryError {
    /// A function was declared twice.
    FunctionIdAlreadyExists(FunctionId),
    /// No function has the identifier.
    MissingFunction(FunctionId),
    /// A concrete type was declared twice.
    TypeConcreteIdAlreadyExists(ConcreteTypeId),
    /// No type has the identifier.
    MissingType(ConcreteTypeId),
    /// A concrete libfunc was declared twice.
    LibFuncConcreteIdAlreadyExists(ConcreteLibFuncId),
    /// No libfunc has the identifier.
    MissingLibFunc(ConcreteLibFuncId),
    /// A declared type could not be made concrete.
    TypeSpecialization { concrete_id: ConcreteTypeId, error: SpecializationError },
}

/// The text of an error of the registry.
pub open spec fn registry_error_text(error: ProgramRegistryError) -> Seq<char> {
    match error {
        ProgramRegistryError::FunctionIdAlreadyExists(id) => "used the same function id twice `"@
            + id_text(id.id, id.debug_name) + "`."@,
        ProgramRegistryError::MissingFunction(id) => "Could not find the requested function `"@
            + id_text(id.id, id.debug_name) + "`."@,
        ProgramRegistryError::TypeConcreteIdAlreadyExists(id) =>
            "used the same concrete type id twice `"@ + id_text(id.id, id.debug_name) + "`."@,
        ProgramRegistryError::MissingType(id) => "Could not find the requested type `"@ + id_text(
            id.id,
            id.debug_name,
        ) + "`."@,
        ProgramRegistryError::LibFuncConcreteIdAlreadyExists(id) =>
            "used the same concrete libfunc id twice `"@ + id_text(id.id, id.debug_name) + "`."@,
        ProgramRegistryError::MissingLibFunc(id) => "Could not find the requested libfunc `"@
            + id_text(id.id, id.debug_name) + "`."@,
        ProgramRegistryError::TypeSpecialization { concrete_id, error } =>
            "Error during type specialization of `"@ + id_text(
                concrete_id.id,
                concrete_id.debug_name,
            ) + "`."@,
    }
}

fn quoted(before: &str, id: u64, debug_name: &Option<String>) -> (text: String)
    ensures
        text@ == before@ + id_text(id, *debug_name) + "`."@,
{
    let mut text = String::from_str(before);
    text.append(id_to_string(id, debug_name).as_str());
    text.append("`.");
    text
}

impl ProgramRegistryError {
    /// The text of the error.
    pub fn to_string(&self) -> (text: String)
        ensures
            text@ == registry_error_text(*self),
    {
        match self {
            ProgramRegistryError::FunctionIdAlreadyExists(id) => quoted(
                "used the same function id twice `",
                id.id,
                &id.debug_name,
            ),
            ProgramRegistryError::MissingFunction(id) => quoted(
                "Could not find the requested function `",
                id.id,
                &id.debug_name,
            ),
            ProgramRegistryError::TypeConcreteIdAlreadyExists(id) => quoted(
                "used the same concrete type id twice `",
                id.id,
                &id.debug_name,
            ),
            ProgramRegistryError::MissingType(id) => quoted(
                "Could not find the requested type `",
                id.id,
                &id.debug_name,
            ),
            ProgramRegistryError::LibFuncConcreteIdAlreadyExists(id) => quoted(
                "used the same concrete libfunc id twice `",
                id.id,
                &id.debug_name,
            ),
            ProgramRegistryError::MissingLibFunc(id) => quoted(
                "Could not find the requested libfunc `",
                id.id,
                &id.debug_name,
            ),
            ProgramRegistryError::TypeSpecialization { concrete_id, error } => quoted(
                "Error during type specialization of `",
                concrete_id.id,
                &concrete_id.debug_name,
            ),
        }
    }
}

/// The numbers of the declared types, in the order of declaration.
pub open spec fn type_ids(decls: Seq<TypeDeclaration>) -> Seq<u64> {
    Seq::new(decls.len(), |i: int| decls[i].id.id)
}

/// The numbers of the declared libfuncs, in the order of declaration.
pub open spec fn libfunc_ids(decls: Seq<LibFuncDeclaration>) -> Seq<u64> {
    Seq::new(decls.len(), |i: int| decls[i].id.id)
}

/// The numbers of the functions, in the order of declaration.
pub open spec fn function_ids(funcs: Seq<Function>) -> Seq<u64> {
    Seq::new(funcs.len(), |i: int| funcs[i].id.id)
}

/// No number occurs twice.
pub open spec fn distinct(ids: Seq<u64>) -> bool {
    forall|i: int, j: int| 0 <= i < j < ids.len() ==> ids[i] != ids[j]
}

/// The place `j` holds the first number that occurred before.
pub open spec fn first_repeat_at(ids: Seq<u64>, j: int) -> bool {
    &&& 0 <= j < ids.len()
    &&& distinct(ids.take(j))
    &&& exists|i: int| 0 <= i < j && ids[i] == ids[j]
}

/// No declared type takes a cell count below zero.
pub open spec fn sizes_valid(decls: Seq<TypeDeclaration>) -> bool {
    forall|i: int| 0 <= i < decls.len() ==> (#[trigger] decls[i]).info.size >= 0
}

/// The place `j` holds the first type that is declared with a cell count
/// below zero.
pub open spec fn first_bad_size_at(decls: Seq<TypeDeclaration>, j: int) -> bool {
    &&& 0 <= j < decls.len()
    &&& sizes_valid(decls.take(j))
    &&& decls[j].info.size < 0
}

/// The place of the first of the declarations with the given number.
pub open spec fn index_of(ids: Seq<u64>, id: u64) -> Option<int>
    decreases ids.len(),
{
    if ids.len() == 0 {
        None
    } else if ids[0] == id {
        Some(0)
    } else {
        match index_of(ids.skip(1), id) {
            Some(i) => Some(i + 1),
            None => None,
        }
    }
}

/// What `index_of` finds is a place of the number, and it finds one whenever
/// there is one.
pub proof fn lemma_index_of(ids: Seq<u64>, id: u64)
    ensures
        match index_of(ids, id) {
            Some(i) => 0 <= i < ids.len() && ids[i] == id && forall|k: int|
                0 <= k < i ==> ids[k] != id,
            None => forall|k: int| 0 <= k < ids.len() ==> ids[k] != id,
        },
    decreases ids.len(),
{
    if ids.len() > 0 && ids[0] != id {
        lemma_index_of(ids.skip(1), id);
        match index_of(ids.skip(1), id) {
            Some(i) => {
                assert forall|k: int| 0 <= k < i + 1 implies ids[k] != id by {
                    if k > 0 {
                        assert(ids.skip(1)[k - 1] == ids[k]);
                    }
                }
            },
            None => {
                assert forall|k: int| 0 <= k < ids.len() implies ids[k] != id by {
                    if k > 0 {
                        assert(ids.skip(1)[k - 1] == ids[k]);
                    }
                }
            },
        }
    }
}

/// Finds the place of the first of the numbers that is `id`.
pub fn find_index(ids: &Vec<u64>, id: u64) -> (res: Option<usize>)
    ensures
        match res {
            Some(i) => index_of(ids@, id) == Some(i as int),
            None => index_of(ids@, id) is None,
        },
{
    let mut i: usize = 0;
    while i < ids.len()
        invariant
            i <= ids.len(),
            forall|k: int| 0 <= k < i ==> ids@[k] != id,
        decreases ids.len() - i,
    {
        if ids[i] == id {
            proof {
                lemma_index_of(ids@, id);
            }
            return Some(i);
        }
        i = i + 1;
    }
    proof {
        lemma_index_of(ids@, id);
    }
    None
}

/// Finds the first place that holds a number that occurred before.
pub fn find_repeat(ids: &Vec<u64>) -> (res: Option<usize>)
    ensures
        match res {
            Some(j) => first_repeat_at(ids@, j as int),
            None => distinct(ids@),
        },
{
    let mut j: usize = 0;
    while j < ids.len()
        invariant
            j <= ids.len(),
            distinct(ids@.take(j as int)),
        decreases ids.len() - j,
    {
        let mut i: usize = 0;
        while i < j
            invariant
                i <= j < ids.len(),
                distinct(ids@.take(j as int)),
                forall|k: int| 0 <= k < i ==> ids@[k] != ids@[j as int],
            decreases j - i,
        {
            if ids[i] == ids[j] {
                return Some(j);
            }
            i = i + 1;
        }
        j = j + 1;
    }
    assert(ids@.take(j as int) =~= ids@);
    None
}

/// The registry of a program.
pub struct ProgramRegistry {
    program: Program,
    type_ids: Vec<u64>,
    libfunc_ids: Vec<u64>,
    function_ids: Vec<u64>,
}

impl ProgramRegistry {
    #[verifier::type_invariant]
    spec fn well_formed(self) -> bool {
        &&& self.type_ids@ == type_ids(self.program.type_declarations@)
        &&& self.libfunc_ids@ == libfunc_ids(self.program.libfunc_declarations@)
        &&& self.function_ids@ == function_ids(self.program.funcs@)
        &&& distinct(self.type_ids@)
        &&& distinct(self.libfunc_ids@)
        &&& distinct(self.function_ids@)
        &&& sizes_valid(self.program.type_declarations@)
    }

    /// The program that the registry was built from.
    pub closed spec fn spec_program(self) -> Program {
        self.program
    }

    /// What holds of the program of every registry: each function, type and
    /// libfunc is declared once, and no type takes a cell count below zero.
    pub open spec fn valid_program(program: Program) -> bool {
        &&& distinct(function_ids(program.funcs@))
        &&& distinct(type_ids(program.type_declarations@))
        &&& distinct(libfunc_ids(program.libfunc_declarations@))
        &&& sizes_valid(program.type_declarations@)
    }

    /// The information on the type with the given number, if it is declared.
    pub open spec fn spec_get_type(self, id: u64) -> Option<TypeInfo> {
        let decls = self.spec_program().type_declarations@;
        match index_of(type_ids(decls), id) {
            Some(i) => Some(decls[i].info),
            None => None,
        }
    }

    /// The function with the given number, if there is one.
    pub open spec fn spec_get_function(self, id: u64) -> Option<Function> {
        let funcs = self.spec_program().funcs@;
        match index_of(function_ids(funcs), id) {
            Some(i) => Some(funcs[i]),
            None => None,
        }
    }

    /// The declaration of the libfunc with the given number, if there is one.
    pub open spec fn spec_get_libfunc(self, id: u64) -> Option<LibFuncDeclaration> {
        let decls = self.spec_program().libfunc_declarations@;
        match index_of(libfunc_ids(decls), id) {
            Some(i) => Some(decls[i]),
            None => None,
        }
    }

    /// Builds the registry of a program. The functions are looked at first,
    /// then the types, then the libfuncs; the first declaration that repeats an
    /// identifier, or the first type with a cell count below zero, is the error.
    pub fn new(program: Program) -> (res: Result<ProgramRegistry, ProgramRegistryError>)
        ensures
            res is Ok <==> Self::valid_program(program),
            res matches Ok(registry) ==> registry.spec_program() == program,
            res matches Err(error) ==> Self::build_error(program, error),
    {
        let fn_ids = collect_function_ids(&program.funcs);
        match find_repeat(&fn_ids) {
            Some(j) => {
                return Err(
                    ProgramRegistryError::FunctionIdAlreadyExists(program.funcs[j].id.duplicate()),
                );
            },
            None => {},
        }
        let ty_ids = collect_type_ids(&program.type_declarations);
        match find_repeat(&ty_ids) {
            Some(j) => {
                return Err(
                    ProgramRegistryError::TypeConcreteIdAlreadyExists(
                        program.type_declarations[j].id.duplicate(),
                    ),
                );
            },
            None => {},
        }
        let mut k: usize = 0;
        while k < program.type_declarations.len()
            invariant
                k <= program.type_declarations.len(),
                sizes_valid(program.type_declarations@.take(k as int)),
                distinct(function_ids(program.funcs@)),
                distinct(type_ids(program.type_declarations@)),
            decreases program.type_declarations.len() - k,
        {
            if program.type_declarations[k].info.size < 0 {
                return Err(
                    ProgramRegistryError::TypeSpecialization {
                        concrete_id: program.type_declarations[k].id.duplicate(),
                        error: SpecializationError::UnsupportedGenericArg,
                    },
                );
            }
            k = k + 1;
        }
        assert(program.type_declarations@.take(k as int) =~= program.type_declarations@);
        let lf_ids = collect_libfunc_ids(&program.libfunc_declarations);
        match find_repeat(&lf_ids) {
            Some(j) => {
                return Err(
                    ProgramRegistryError::LibFuncConcreteIdAlreadyExists(
                        program.libfunc_declarations[j].id.duplicate(),
                    ),
                );
            },
            None => {},
        }
        Ok(ProgramRegistry { program, type_ids: ty_ids, libfunc_ids: lf_ids, function_ids: fn_ids })
    }

    /// What the error of a failed build says of the program.
    pub open spec fn build_error(program: Program, error: ProgramRegistryError) -> bool {
        match error {
            ProgramRegistryError::FunctionIdAlreadyExists(id) => exists|j: int|
                first_repeat_at(function_ids(program.funcs@), j) && #[trigger] program.funcs@[j].id
                    == id,
            ProgramRegistryError::TypeConcreteIdAlreadyExists(id) => {
                &&& distinct(function_ids(program.funcs@))
                &&& exists|j: int|
                    first_repeat_at(type_ids(program.type_declarations@), j)
                        && #[trigger] program.type_declarations@[j].id == id
            },
            ProgramRegistryError::TypeSpecialization { concrete_id, error } => {
                &&& distinct(function_ids(program.funcs@))
                &&& distinct(type_ids(program.type_declarations@))
                &&& error == SpecializationError::UnsupportedGenericArg
                &&& exists|j: int|
                    first_bad_size_at(program.type_declarations@, j)
                        && #[trigger] program.type_declarations@[j].id == concrete_id
            },
            ProgramRegistryError::LibFuncConcreteIdAlreadyExists(id) => {
                &&& distinct(function_ids(program.funcs@))
                &&& distinct(type_ids(program.type_declarations@))
                &&& sizes_valid(program.type_declarations@)
                &&& exists|j: int|
                    first_repeat_at(libfunc_ids(program.libfunc_declarations@), j)
                        && #[trigger] program.libfunc_declarations@[j].id == id
            },
            _ => false,
        }
    }

    /// The program that the registry was built from.
    pub fn program(&self) -> (program: &Program)
        ensures
            *program == self.spec_program(),
            Self::valid_program(*program),
    {
        proof {
            use_type_invariant(self);
        }
        &self.program
    }

    /// The information on the type `id`.
    pub fn get_type(&self, id: &ConcreteTypeId) -> (res: Result<&TypeInfo, ProgramRegistryError>)
        ensures
            match res {
                Ok(info) => self.spec_get_type(id.id) == Some(*info) && info.size >= 0,
                Err(error) => self.spec_get_type(id.id) is None && error
                    == ProgramRegistryError::MissingType(*id),
            },
    {
        proof {
            use_type_invariant(self);
            lemma_index_of(self.type_ids@, id.id);
        }
        match find_index(&self.type_ids, id.id) {
            Some(i) => Ok(&self.program.type_declarations[i].info),
            None => Err(ProgramRegistryError::MissingType(id.duplicate())),
        }
    }

    /// The function `id`.
    pub fn get_function(&self, id: &FunctionId) -> (res: Result<&Function, ProgramRegistryError>)
        ensures
            match res {
                Ok(function) => self.spec_get_function(id.id) == Some(*function),
                Err(error) => self.spec_get_function(id.id) is None && error
                    == ProgramRegistryError::MissingFunction(*id),
            },
    {
        proof {
            use_type_invariant(self);
            lemma_index_of(self.function_ids@, id.id);
        }
        match find_index(&self.function_ids, id.id) {
            Some(i) => Ok(&self.program.funcs[i]),
            None => Err(ProgramRegistryError::MissingFunction(id.duplicate())),
        }
    }

    /// The declaration of the libfunc `id`.
    pub fn get_libfunc(&self, id: &ConcreteLibFuncId) -> (res: Result<
        &LibFuncDeclaration,
        ProgramRegistryError,
    >)
        ensures
            match res {
                Ok(decl) => self.spec_get_libfunc(id.id) == Some(*decl),
                Err(error) => self.spec_get_libfunc(id.id) is None && error
                    == ProgramRegistryError::MissingLibFunc(*id),
            },
    {
        proof {
            use_type_invariant(self);
            lemma_index_of(self.libfunc_ids@, id.id);
        }
        match find_index(&self.libfunc_ids, id.id) {
            Some(i) => Ok(&self.program.libfunc_declarations[i]),
            None => Err(ProgramRegistryError::MissingLibFunc(id.duplicate())),
        }
    }
}

fn collect_type_ids(decls: &Vec<TypeDeclaration>) -> (ids: Vec<u64>)
    ensures
        ids@ == type_ids(decls@),
{
    let mut ids: Vec<u64> = Vec::new();
    let mut i: usize = 0;
    while i < decls.len()
        invariant
            i <= decls.len(),
            ids@ == type_ids(decls@.take(i as int)),
        decreases decls.len() - i,
    {
        ids.push(decls[i].id.id);
        i = i + 1;
    }
    ids
}

fn collect_libfunc_ids(decls: &Vec<LibFuncDeclaration>) -> (ids: Vec<u64>)
    ensures
        ids@ == libfunc_ids(decls@),
{
    let mut ids: Vec<u64> = Vec::new();
    let mut i: usize = 0;
    while i < decls.len()
        invariant
            i <= decls.len(),
            ids@ == libfunc_ids(decls@.take(i as int)),
        decreases decls.len() - i,
    {
        ids.push(decls[i].id.id);
        i = i + 1;
    }
    ids
}

fn collect_function_ids(funcs: &Vec<Function>) -> (ids: Vec<u64>)
    ensures
        ids@ == function_ids(funcs@),
{
    let mut ids: Vec<u64> = Vec::new();
    let mut i: usize = 0;
    while i < funcs.len()
        invariant
            i <= funcs.len(),
            ids@ == function_ids(funcs@.take(i as int)),
        decreases funcs.len() - i,
    {
        ids.push(funcs[i].id.id);
        i = i + 1;
    }
    ids
}

} // verus!
