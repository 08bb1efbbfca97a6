//! The variants of an enum. An enum may declare a name more than once: the
//! enum then has one variant of that name, the one declared last, at the
//! place of the first, and each repeated declaration is reported.

use vstd::prelude::*;

verus! {

/// An enum, as the front end numbers them.
#[derive(Copy, Clone, Debug, Hash, PartialEq, Eq, Structural)]
pub struct EnumId(pub u64);

/// An enum with its generic arguments filled in, as the front end numbers
/// them.
#[derive(Copy, Clone, Debug, Hash, PartialEq, Eq, Structural)]
pub struct ConcreteEnumId(pub u64);

/// A variant of an enum, as the front end numbers them.
#[derive(Copy, Clone, Debug, Hash, PartialEq, Eq, Structural)]
pub struct VariantId(pub u64);

/// A type, as the front end numbers them.
#[derive(Copy, Clone, Debug, Hash, PartialEq, Eq, Structural)]
pub struct TypeId(pub u64);

/// A variant of an enum.
#[derive(Copy, Clone, Debug, Hash, PartialEq, Eq, Structural)]
pub struct Variant {
    pub enum_id: EnumId,
    pub id: VariantId,
    pub ty: TypeId,
}

/// A variant of an enum with its generic arguments filled in.
#[derive(Copy, Clone, Debug, Hash, PartialEq, Eq, Structural)]
pub struct ConcreteVariant {
    pub concrete_enum_id: ConcreteEnumId,
    pub id: VariantId,
    pub ty: TypeId,
}

/// One declaration of a variant in the text of an enum: its name, the number
/// that the front end gave it, and the type that its type clause resolved to.
#[derive(Clone, Debug, PartialEq, Eq)]
pub struct VariantDeclaration {
    pub name: String,
    pub id: VariantId,
    pub ty: TypeId,
}

/// A variant under its name.
#[derive(Clone, Debug, PartialEq, Eq)]
pub struct VariantEntry {
    pub name: String,
    pub variant: Variant,
}

/// What a variant under its name stands for.
pub struct VariantEntryView {
    pub name: Seq<char>,
    pub variant: Variant,
}

/// What the analysis of an enum reports.
#[derive(Clone, Debug, PartialEq, Eq)]
pub enum SemanticDiagnosticKind {
    /// The enum declares a variant of a name that it has declared before.
    EnumVariantRedefinition { enum_id: EnumId, variant_name: String },
}

/// A report on the declaration at the place `at` of the enum's declarations.
#[derive(Clone, Debug, PartialEq, Eq)]
pub struct SemanticDiagnostic {
    pub at: usize,
    pub kind: SemanticDiagnosticKind,
}

/// What a report stands for.
pub struct SemanticDiagnosticView {
    pub at: int,
    pub enum_id: EnumId,
    pub variant_name: Seq<char>,
}

/// What variants under their names stand for.
pub open spec fn entries_view(entries: Seq<VariantEntry>) -> Seq<VariantEntryView> {
    Seq::new(
        entries.len(),
        |i: int| VariantEntryView { name: entries[i].name@, variant: entries[i].variant },
    )
}

/// What reports stand for.
pub open spec fn diagnostics_view(diagnostics: Seq<SemanticDiagnostic>) -> Seq<
    SemanticDiagnosticView,
> {
    Seq::new(
        diagnostics.len(),
        |i: int|
            match diagnostics[i].kind {
                SemanticDiagnosticKind::EnumVariantRedefinition { enum_id, variant_name } =>
                    SemanticDiagnosticView {
                        at: diagnostics[i].at as int,
                        enum_id,
                        variant_name: variant_name@,
                    },
            },
    )
}

/// Whether one of the first `n` declarations declares the name.
pub open spec fn occurs(decls: Seq<VariantDeclaration>, n: int, name: Seq<char>) -> bool {
    exists|j: int| 0 <= j < n && j < decls.len() && (#[trigger] decls[j]).name@ == name
}

/// The names that the first `n` declarations declare, each once, in the
/// order in which they are first declared.
pub open spec fn names_after(decls: Seq<VariantDeclaration>, n: int) -> Seq<Seq<char>>
    decreases n,
{
    if n <= 0 {
        Seq::empty()
    } else if occurs(decls, n - 1, decls[n - 1].name@) {
        names_after(decls, n - 1)
    } else {
        names_after(decls, n - 1).push(decls[n - 1].name@)
    }
}

/// The place of the last of the first `n` declarations that declares the
/// name; -1 if none does.
pub open spec fn last_declared(decls: Seq<VariantDeclaration>, n: int, name: Seq<char>) -> int
    decreases n,
{
    if n <= 0 {
        -1
    } else if decls[n - 1].name@ == name {
        n - 1
    } else {
        last_declared(decls, n - 1, name)
    }
}

/// The variants of an enum after the first `n` of its declarations: one for
/// each name, in the order in which the names are first declared, and for
/// each name the variant that is declared last.
pub open spec fn variants_after(enum_id: EnumId, decls: Seq<VariantDeclaration>, n: int) -> Seq<
    VariantEntryView,
> {
    let names = names_after(decls, n);
    Seq::new(
        names.len(),
        |k: int|
            {
                let last = decls[last_declared(decls, n, names[k])];
                VariantEntryView {
                    name: names[k],
                    variant: Variant { enum_id, id: last.id, ty: last.ty },
                }
            },
    )
}

/// The reports on the first `n` declarations of an enum: one for each
/// declaration of a name that was declared before, in their order.
pub open spec fn redefinitions_after(enum_id: EnumId, decls: Seq<VariantDeclaration>, n: int) -> Seq<
    SemanticDiagnosticView,
>
    decreases n,
{
    if n <= 0 {
        Seq::empty()
    } else if occurs(decls, n - 1, decls[n - 1].name@) {
        redefinitions_after(enum_id, decls, n - 1).push(
            SemanticDiagnosticView { at: n - 1, enum_id, variant_name: decls[n - 1].name@ },
        )
    } else {
        redefinitions_after(enum_id, decls, n - 1)
    }
}

/// The names that the first `n` declarations declare are the names of the
/// list, and no name stands twice in the list.
pub proof fn lemma_names_after(decls: Seq<VariantDeclaration>, n: int)
    requires
        0 <= n <= decls.len(),
    ensures
        forall|name: Seq<char>| #[trigger]
            names_after(decls, n).contains(name) <==> occurs(decls, n, name),
        names_after(decls, n).no_duplicates(),
    decreases n,
{
    if n > 0 {
        lemma_names_after(decls, n - 1);
        let prev = names_after(decls, n - 1);
        let new = decls[n - 1].name@;
        if occurs(decls, n - 1, new) {
            assert forall|name: Seq<char>| #[trigger]
                names_after(decls, n).contains(name) <==> occurs(decls, n, name) by {
                if occurs(decls, n, name) {
                    let j = choose|j: int|
                        0 <= j < n && j < decls.len() && (#[trigger] decls[j]).name@ == name;
                    if j == n - 1 {
                        assert(prev.contains(new));
                    }
                }
            }
        } else {
            assert forall|name: Seq<char>| #[trigger]
                names_after(decls, n).contains(name) <==> occurs(decls, n, name) by {
                if prev.push(new).contains(name) {
                    let k = choose|k: int| 0 <= k < prev.push(new).len() && prev.push(new)[k] == name;
                    if k < prev.len() {
                        assert(prev.contains(prev[k]));
                    } else {
                        assert(decls[n - 1].name@ == name);
                    }
                }
                if occurs(decls, n, name) {
                    let j = choose|j: int|
                        0 <= j < n && j < decls.len() && (#[trigger] decls[j]).name@ == name;
                    if j == n - 1 {
                        assert(prev.push(new)[prev.len() as int] == name);
                    } else {
                        assert(occurs(decls, n - 1, name));
                        assert(prev.contains(name));
                        let k = choose|k: int| 0 <= k < prev.len() && prev[k] == name;
                        assert(prev.push(new)[k] == name);
                    }
                }
            }
            assert(!prev.contains(new));
            assert forall|a: int, b: int|
                0 <= a < prev.push(new).len() && 0 <= b < prev.push(new).len() && a != b implies prev.push(
                new,
            )[a] != prev.push(new)[b] by {
                if a < prev.len() {
                    assert(prev.contains(prev[a]));
                }
                if b < prev.len() {
                    assert(prev.contains(prev[b]));
                }
            }
        }
    }
}

/// A name that one of the first `n` declarations declares is last declared
/// at one of their places, by a declaration of that name.
pub proof fn lemma_last_declared(decls: Seq<VariantDeclaration>, n: int, name: Seq<char>)
    requires
        0 <= n <= decls.len(),
    ensures
        -1 <= last_declared(decls, n, name) < n,
        occurs(decls, n, name) <==> last_declared(decls, n, name) >= 0,
        last_declared(decls, n, name) >= 0 ==> decls[last_declared(decls, n, name)].name@ == name,
        forall|l: int| last_declared(decls, n, name) < l < n ==> (#[trigger] decls[l]).name@ != name,
    decreases n,
{
    if n > 0 {
        lemma_last_declared(decls, n - 1, name);
        if decls[n - 1].name@ != name {
            if occurs(decls, n, name) {
                let j = choose|j: int|
                    0 <= j < n && j < decls.len() && (#[trigger] decls[j]).name@ == name;
                assert(occurs(decls, n - 1, name));
            }
        }
    }
}

/// Whether the entry holds the variant that the declaration at `j` declares,
/// and none of the first `n` declarations after it declares that name.
pub open spec fn holds_last(
    enum_id: EnumId,
    decls: Seq<VariantDeclaration>,
    n: int,
    entry: VariantEntryView,
    j: int,
) -> bool {
    &&& 0 <= j < n
    &&& decls[j].name@ == entry.name
    &&& entry.variant == (Variant { enum_id, id: decls[j].id, ty: decls[j].ty })
    &&& forall|l: int| j < l < n ==> (#[trigger] decls[l]).name@ != entry.name
}

/// Whether the entry holds the variant that the last of the first `n`
/// declarations of its name declares.
pub open spec fn holds_last_declared(
    enum_id: EnumId,
    decls: Seq<VariantDeclaration>,
    n: int,
    entry: VariantEntryView,
) -> bool {
    exists|j: int| holds_last(enum_id, decls, n, entry, j)
}

/// The variants of an enum hold one entry for each name that is declared,
/// no two of the same name, and each entry holds the variant that the last
/// declaration of its name declares.
pub proof fn lemma_variants_after(enum_id: EnumId, decls: Seq<VariantDeclaration>, n: int)
    requires
        0 <= n <= decls.len(),
    ensures
        forall|k: int|
            0 <= k < variants_after(enum_id, decls, n).len() ==> holds_last_declared(
                enum_id,
                decls,
                n,
                #[trigger] variants_after(enum_id, decls, n)[k],
            ),
        forall|a: int, b: int|
            0 <= a < b < variants_after(enum_id, decls, n).len() ==> variants_after(
                enum_id,
                decls,
                n,
            )[a].name != variants_after(enum_id, decls, n)[b].name,
        forall|j: int|
            0 <= j < n ==> exists|k: int|
                0 <= k < variants_after(enum_id, decls, n).len() && (#[trigger] variants_after(
                    enum_id,
                    decls,
                    n,
                )[k]).name == (#[trigger] decls[j]).name@,
{
    let names = names_after(decls, n);
    let variants = variants_after(enum_id, decls, n);
    lemma_names_after(decls, n);
    assert forall|k: int| 0 <= k < variants.len() implies holds_last_declared(
        enum_id,
        decls,
        n,
        #[trigger] variants[k],
    ) by {
        assert(names.contains(names[k]));
        lemma_last_declared(decls, n, names[k]);
        assert(holds_last(enum_id, decls, n, variants[k], last_declared(decls, n, names[k])));
    }
    assert forall|j: int| 0 <= j < n implies exists|k: int|
        0 <= k < variants.len() && (#[trigger] variants[k]).name == (#[trigger] decls[j]).name@ by {
        assert(occurs(decls, n, decls[j].name@));
        assert(names.contains(decls[j].name@));
        let k = choose|k: int| 0 <= k < names.len() && names[k] == decls[j].name@;
        assert(variants[k].name == decls[j].name@);
    }
}

/// The semantic data of an enum: its variants under their names, and the
/// reports on its declarations.
#[derive(Clone, Debug, PartialEq, Eq)]
pub struct EnumData {
    pub diagnostics: Vec<SemanticDiagnostic>,
    pub variants: Vec<VariantEntry>,
}

/// The place of the variant of the given name.
fn find_variant(variants: &Vec<VariantEntry>, name: &String) -> (res: Option<usize>)
    ensures
        match res {
            Some(k) => k < variants@.len() && variants@[k as int].name@ == name@,
            None => forall|k: int| 0 <= k < variants@.len() ==> (#[trigger] variants@[k]).name@
                != name@,
        },
{
    let mut k: usize = 0;
    while k < variants.len()
        invariant
            k <= variants@.len(),
            forall|m: int| 0 <= m < k ==> (#[trigger] variants@[m]).name@ != name@,
        decreases variants@.len() - k,
    {
        if variants[k].name == *name {
            return Some(k);
        }
        k = k + 1;
    }
    None
}

/// Computes the semantic data of an enum from its declarations, in the order
/// of the text. There is none for an enum of which the front end has no
/// declarations.
pub fn priv_enum_semantic_data(enum_id: EnumId, declarations: Option<&Vec<VariantDeclaration>>) -> (res:
    Option<EnumData>)
    ensures
        match declarations {
            None => res is None,
            Some(decls) => res matches Some(data) && entries_view(data.variants@)
                == variants_after(enum_id, decls@, decls@.len() as int) && diagnostics_view(
                data.diagnostics@,
            ) == redefinitions_after(enum_id, decls@, decls@.len() as int),
        },
{
    let decls = match declarations {
        Some(decls) => decls,
        None => {
            return None;
        },
    };
    let mut variants: Vec<VariantEntry> = Vec::new();
    let mut diagnostics: Vec<SemanticDiagnostic> = Vec::new();
    let mut i: usize = 0;
    while i < decls.len()
        invariant
            i <= decls@.len(),
            entries_view(variants@) =~= variants_after(enum_id, decls@, i as int),
            diagnostics_view(diagnostics@) =~= redefinitions_after(enum_id, decls@, i as int),
        decreases decls@.len() - i,
    {
        let decl = &decls[i];
        let variant = Variant { enum_id, id: decl.id, ty: decl.ty };
        let ghost before = variants@;
        let ghost names = names_after(decls@, i as int);
        proof {
            lemma_names_after(decls@, i as int);
            lemma_names_after(decls@, i as int + 1);
            assert(entries_view(before).len() == before.len());
            assert(variants_after(enum_id, decls@, i as int).len() == names.len());
            assert(names.len() == before.len());
            assert forall|k: int| 0 <= k < before.len() implies (#[trigger] before[k]).name@
                == names[k] by {
                assert(entries_view(before)[k].name == names[k]);
            }
        }
        match find_variant(&variants, &decl.name) {
            Some(k) => {
                variants.set(k, VariantEntry { name: decl.name.clone(), variant });
                diagnostics.push(
                    SemanticDiagnostic {
                        at: i,
                        kind: SemanticDiagnosticKind::EnumVariantRedefinition {
                            enum_id,
                            variant_name: decl.name.clone(),
                        },
                    },
                );
                proof {
                    assert(names[k as int] == decl.name@);
                    assert(names.contains(decl.name@));
                    assert(occurs(decls@, i as int, decl.name@));
                    assert forall|m: int| 0 <= m < names.len() implies (#[trigger] entries_view(
                        variants@,
                    )[m]) == variants_after(enum_id, decls@, i as int + 1)[m] by {
                        assert(entries_view(before)[m] == variants_after(enum_id, decls@, i as int)[m]);
                        if m != k {
                            assert(names[m] != names[k as int]);
                        }
                    }
                }
            },
            None => {
                variants.push(VariantEntry { name: decl.name.clone(), variant });
                proof {
                    if occurs(decls@, i as int, decl.name@) {
                        assert(names.contains(decl.name@));
                        let k = choose|k: int| 0 <= k < names.len() && names[k] == decl.name@;
                        assert(before[k].name@ == decl.name@);
                    }
                    assert forall|m: int| 0 <= m < names.len() + 1 implies (#[trigger] entries_view(
                        variants@,
                    )[m]) == variants_after(enum_id, decls@, i as int + 1)[m] by {
                        if m < names.len() {
                            assert(entries_view(before)[m] == variants_after(
                                enum_id,
                                decls@,
                                i as int,
                            )[m]);
                            assert(before[m].name@ != decl.name@);
                        }
                    }
                }
            },
        }
        i = i + 1;
    }
    Some(EnumData { diagnostics, variants })
}

/// The reports on an enum; none for an enum without semantic data.
pub fn enum_semantic_diagnostics(data: Option<EnumData>) -> (res: Vec<SemanticDiagnostic>)
    ensures
        match data {
            Some(data) => res == data.diagnostics,
            None => res@.len() == 0,
        },
{
    match data {
        Some(data) => data.diagnostics,
        None => Vec::new(),
    }
}

/// The variants of an enum under their names, if the enum has semantic data.
pub fn enum_variants(data: Option<EnumData>) -> (res: Option<Vec<VariantEntry>>)
    ensures
        match data {
            Some(data) => res == Some(data.variants),
            None => res is None,
        },
{
    match data {
        Some(data) => Some(data.variants),
        None => None,
    }
}

/// What the analysis adds to the data of enums.
pub trait SemanticEnumEx {
    /// The variant of an enum with its generic arguments filled in: the
    /// variant itself, in that enum.
    fn concrete_enum_variant(&self, concrete_enum_id: ConcreteEnumId, variant: &Variant) -> (res:
        ConcreteVariant)
        ensures
            res == (ConcreteVariant { concrete_enum_id, id: variant.id, ty: variant.ty }),
    ;
}

impl SemanticEnumEx for EnumData {
    fn concrete_enum_variant(&self, concrete_enum_id: ConcreteEnumId, variant: &Variant) -> (res:
        ConcreteVariant) {
        ConcreteVariant { concrete_enum_id, id: variant.id, ty: variant.ty }
    }
}

} // verus!
