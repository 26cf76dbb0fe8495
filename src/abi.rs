//! The import scanner: the host functions that a WebAssembly module imports,
//! with their types, and the imports that a policy always kills.

use std::rc::Rc;
use vstd::prelude::*;
use wasmparser::{CompositeInnerType, Parser, Payload, TypeRef, ValType};

verus! {

/// A value type of WebAssembly.
#[derive(Debug, Clone, Copy, PartialEq, Eq, Structural)]
pub enum ValueType {
    I32,
    I64,
    F32,
    F64,
    V128,
    Ref,
}

/// The parameters and results of a function type.
#[derive(Debug)]
pub struct FuncSignature {
    pub params: Vec<ValueType>,
    pub results: Vec<ValueType>,
}

impl View for FuncSignature {
    /// The parameters and the results.
    type V = (Seq<ValueType>, Seq<ValueType>);

    open spec fn view(&self) -> (Seq<ValueType>, Seq<ValueType>) {
        (self.params@, self.results@)
    }
}

impl FuncSignature {
    pub fn params(&self) -> (r: &[ValueType])
        ensures
            r@ == self.params@,
    {
        self.params.as_slice()
    }

    pub fn results(&self) -> (r: &[ValueType])
        ensures
            r@ == self.results@,
    {
        self.results.as_slice()
    }
}

/// One type of a recursion group.
#[derive(Debug)]
pub struct SubTypeInfo {
    /// The type is closed to subtyping.
    pub is_final: bool,
    /// The signature, where the type is a function type.
    pub func: Option<FuncSignature>,
}

/// A type of a recursion group, as values.
pub struct SubTypeView {
    pub is_final: bool,
    pub func: Option<(Seq<ValueType>, Seq<ValueType>)>,
}

impl View for SubTypeInfo {
    type V = SubTypeView;

    open spec fn view(&self) -> SubTypeView {
        SubTypeView {
            is_final: self.is_final,
            func: match self.func {
                Some(f) => Some(f@),
                None => None,
            },
        }
    }
}

/// A recursion group of the type section: one type, or several declared as
/// mutually recursive.
#[derive(Debug)]
pub struct TypeGroup {
    /// The group was declared explicitly with `rec`.
    pub explicit: bool,
    pub types: Vec<SubTypeInfo>,
}

/// A recursion group, as values.
pub struct TypeGroupView {
    pub explicit: bool,
    pub types: Seq<SubTypeView>,
}

pub open spec fn sub_type_views(v: Seq<SubTypeInfo>) -> Seq<SubTypeView> {
    v.map_values(|t: SubTypeInfo| t@)
}

impl View for TypeGroup {
    type V = TypeGroupView;

    open spec fn view(&self) -> TypeGroupView {
        TypeGroupView { explicit: self.explicit, types: sub_type_views(self.types@) }
    }
}

/// The type of an import is one for a C-like call: not part of an explicit
/// recursion group, final, and a function with at most one result.
pub open spec fn c_abi_type(g: TypeGroupView) -> bool {
    &&& !g.explicit
    &&& g.types.len() > 0
    &&& g.types[0].is_final
    &&& g.types[0].func matches Some(f) && f.1.len() <= 1
}

/// An imported function of a WebAssembly module.
#[derive(Debug)]
pub struct ImportFunc {
    /// The module being imported from.
    pub module: String,
    /// The name of the imported item.
    pub name: String,
    /// The type of the imported item, shared with the other imports of it.
    pub ty: Rc<TypeGroup>,
}

/// An imported function, as values.
pub struct ImportFuncView {
    pub module: Seq<char>,
    pub name: Seq<char>,
    pub ty: TypeGroupView,
}

impl View for ImportFunc {
    type V = ImportFuncView;

    open spec fn view(&self) -> ImportFuncView {
        ImportFuncView { module: self.module@, name: self.name@, ty: self.ty@ }
    }
}

impl ImportFunc {
    pub fn is_c_abi(&self) -> (r: bool)
        ensures
            r == c_abi_type(self@.ty),
    {
        let g: &TypeGroup = &self.ty;
        if g.explicit || g.types.len() == 0 {
            return false;
        }
        let first = &g.types[0];
        match &first.func {
            Some(f) => first.is_final && f.results.len() <= 1,
            None => false,
        }
    }

    /// The signature of the import's type.
    pub fn unwrap_func(&self) -> (r: &FuncSignature)
        requires
            self@.ty.types.len() > 0,
            self@.ty.types[0].func is Some,
        ensures
            self@.ty.types[0].func == Some(r@),
    {
        let g: &TypeGroup = &self.ty;
        g.types[0].func.as_ref().unwrap()
    }
}

/// An import entry as the module declares it.
#[derive(Debug)]
pub struct RawImport {
    pub module: String,
    pub name: String,
    /// The index of the function type, or `None` for a table, a memory, a
    /// global or a tag.
    pub func_type: Option<u32>,
}

/// An import entry, as values.
pub struct RawImportView {
    pub module: Seq<char>,
    pub name: Seq<char>,
    pub func_type: Option<u32>,
}

impl View for RawImport {
    type V = RawImportView;

    open spec fn view(&self) -> RawImportView {
        RawImportView { module: self.module@, name: self.name@, func_type: self.func_type }
    }
}

impl RawImport {
    fn copy(&self) -> (r: RawImport)
        ensures
            r == *self,
    {
        RawImport { module: self.module.clone(), name: self.name.clone(), func_type: self.func_type }
    }
}

pub open spec fn raw_views(v: Seq<RawImport>) -> Seq<RawImportView> {
    v.map_values(|e: RawImport| e@)
}

pub open spec fn group_views(v: Seq<Rc<TypeGroup>>) -> Seq<TypeGroupView> {
    v.map_values(|g: Rc<TypeGroup>| g@)
}

/// What one section of a module holds, as far as the scanner reads it. A
/// reader that failed part way holds the entries before the failure and is
/// marked `truncated`.
#[derive(Debug)]
pub enum Section {
    Imports { entries: Vec<RawImport>, truncated: bool },
    Types { groups: Vec<Rc<TypeGroup>>, truncated: bool },
    Other,
}

/// A section, as values.
pub enum SectionView {
    Imports { entries: Seq<RawImportView>, truncated: bool },
    Types { groups: Seq<TypeGroupView>, truncated: bool },
    Other,
}

impl View for Section {
    type V = SectionView;

    open spec fn view(&self) -> SectionView {
        match self {
            Section::Imports { entries, truncated } => SectionView::Imports {
                entries: raw_views(entries@),
                truncated: *truncated,
            },
            Section::Types { groups, truncated } => SectionView::Types {
                groups: group_views(groups@),
                truncated: *truncated,
            },
            Section::Other => SectionView::Other,
        }
    }
}

pub open spec fn section_views(v: Seq<Section>) -> Seq<SectionView> {
    v.map_values(|s: Section| s@)
}

/// Why a module could not be scanned.
#[derive(Debug, Clone, Copy, PartialEq, Eq, Structural)]
pub enum ParseError {
    /// The bytes are not a structurally valid module.
    MalformedBinary,
    /// An import is a table, a memory, a global or a tag.
    NonFunctionImport,
    /// An import names a type index that the type section does not define.
    UnresolvedType,
}

/// What the scan has gathered so far: the function imports, and the types by
/// index.
pub struct ScanState {
    pub imports: Seq<RawImportView>,
    pub types: Map<int, TypeGroupView>,
}

/// The types of one type section, by their position in it.
pub open spec fn indexed_groups(groups: Seq<TypeGroupView>) -> Map<int, TypeGroupView> {
    Map::new(|i: int| 0 <= i < groups.len(), |i: int| groups[i])
}

/// Some entry is not a function import.
pub open spec fn has_non_function(entries: Seq<RawImportView>) -> bool {
    exists|i: int| 0 <= i < entries.len() && (#[trigger] entries[i]).func_type is None
}

/// One section read on top of the state: import entries are checked in order,
/// so a non-function entry ahead of the reader's failure is what is reported;
/// the groups of a type section take the indices of their position in it,
/// replacing what an earlier type section put there.
pub open spec fn scan_step(st: ScanState, s: SectionView) -> Result<ScanState, ParseError> {
    match s {
        SectionView::Imports { entries, truncated } => if has_non_function(entries) {
            Err(ParseError::NonFunctionImport)
        } else if truncated {
            Err(ParseError::MalformedBinary)
        } else {
            Ok(ScanState { imports: st.imports + entries, types: st.types })
        },
        SectionView::Types { groups, truncated } => if truncated {
            Err(ParseError::MalformedBinary)
        } else {
            Ok(ScanState { imports: st.imports, types: st.types.union_prefer_right(indexed_groups(groups)) })
        },
        SectionView::Other => Ok(st),
    }
}

/// The state after reading the sections in order, or the first failure.
pub open spec fn scan_sections(sections: Seq<SectionView>) -> Result<ScanState, ParseError>
    decreases sections.len(),
{
    if sections.len() == 0 {
        Ok(ScanState { imports: Seq::empty(), types: Map::empty() })
    } else {
        match scan_sections(sections.drop_last()) {
            Err(e) => Err(e),
            Ok(st) => scan_step(st, sections.last()),
        }
    }
}

/// An import paired with its type.
pub open spec fn with_type(types: Map<int, TypeGroupView>) -> spec_fn(RawImportView) -> ImportFuncView {
    |imp: RawImportView|
        ImportFuncView { module: imp.module, name: imp.name, ty: types[imp.func_type.unwrap() as int] }
}

/// Each import paired with its type, or `UnresolvedType` where one names an
/// index without a type.
pub open spec fn resolve(st: ScanState) -> Result<Seq<ImportFuncView>, ParseError> {
    if exists|i: int|
        0 <= i < st.imports.len() && !st.types.contains_key(
            (#[trigger] st.imports[i]).func_type.unwrap() as int,
        ) {
        Err(ParseError::UnresolvedType)
    } else {
        Ok(st.imports.map_values(with_type(st.types)))
    }
}

/// The imported functions of a module read as `sections`, followed by a
/// failure to read further where `truncated`.
pub open spec fn import_funcs_of(sections: Seq<SectionView>, truncated: bool) -> Result<
    Seq<ImportFuncView>,
    ParseError,
> {
    match scan_sections(sections) {
        Err(e) => Err(e),
        Ok(st) => if truncated {
            Err(ParseError::MalformedBinary)
        } else {
            resolve(st)
        },
    }
}

pub open spec fn result_view(r: Result<Vec<ImportFunc>, ParseError>) -> Result<
    Seq<ImportFuncView>,
    ParseError,
> {
    match r {
        Ok(v) => Ok(v@.map_values(|f: ImportFunc| f@)),
        Err(e) => Err(e),
    }
}

/// The types of a table indexed by position.
pub open spec fn table_map(tv: Seq<Option<Rc<TypeGroup>>>) -> Map<int, TypeGroupView> {
    Map::new(|k: int| 0 <= k < tv.len() && tv[k] is Some, |k: int| tv[k].unwrap()@)
}

/// A failure part way stays the failure of the whole module.
proof fn lemma_scan_prefix_err(sections: Seq<SectionView>, i: int)
    requires
        0 <= i <= sections.len(),
        scan_sections(sections.take(i)) is Err,
    ensures
        scan_sections(sections) == scan_sections(sections.take(i)),
    decreases sections.len() - i,
{
    if i < sections.len() {
        assert(sections.take(i + 1).drop_last() =~= sections.take(i));
        lemma_scan_prefix_err(sections, i + 1);
    } else {
        assert(sections.take(i) =~= sections);
    }
}

/// Reads the sections of a module in order and pairs each function import
/// with its type. `truncated` says that reading the module failed after these
/// sections.
#[verifier::loop_isolation(false)]
pub fn import_funcs_from_sections(sections: &[Section], truncated: bool) -> (r: Result<
    Vec<ImportFunc>,
    ParseError,
>)
    ensures
        result_view(r) == import_funcs_of(section_views(sections@), truncated),
{
    let ghost views = section_views(sections@);
    let mut imports: Vec<RawImport> = Vec::new();
    let mut table: Vec<Option<Rc<TypeGroup>>> = Vec::new();
    let mut i: usize = 0;
    proof {
        assert(views.take(0) =~= Seq::<SectionView>::empty());
        assert(raw_views(imports@) =~= Seq::<RawImportView>::empty());
        assert(table_map(table@) =~= Map::<int, TypeGroupView>::empty());
    }
    while i < sections.len()
        invariant
            i <= sections@.len(),
            views == section_views(sections@),
            forall|m: int| 0 <= m < imports@.len() ==> (#[trigger] imports@[m]).func_type is Some,
            scan_sections(views.take(i as int)) == Ok::<ScanState, ParseError>(
                ScanState { imports: raw_views(imports@), types: table_map(table@) },
            ),
        decreases sections@.len() - i,
    {
        proof {
            assert(views.take(i as int + 1).drop_last() =~= views.take(i as int));
            assert(views.take(i as int + 1).last() == sections@[i as int]@);
        }
        let ghost st = ScanState { imports: raw_views(imports@), types: table_map(table@) };
        match &sections[i] {
            Section::Imports { entries, truncated: failed } => {
                let mut j: usize = 0;
                while j < entries.len()
                    invariant
                        j <= entries@.len(),
                        forall|k: int| 0 <= k < j ==> (#[trigger] entries@[k]).func_type is Some,
                    decreases entries@.len() - j,
                {
                    if entries[j].func_type.is_none() {
                        proof {
                            assert(raw_views(entries@)[j as int].func_type is None);
                            lemma_scan_prefix_err(views, i as int + 1);
                        }
                        return Err(ParseError::NonFunctionImport);
                    }
                    j += 1;
                }
                assert(!has_non_function(raw_views(entries@)));
                if *failed {
                    proof {
                        lemma_scan_prefix_err(views, i as int + 1);
                    }
                    return Err(ParseError::MalformedBinary);
                }
                let mut j: usize = 0;
                while j < entries.len()
                    invariant
                        j <= entries@.len(),
                        forall|m: int| 0 <= m < imports@.len() ==> (#[trigger] imports@[m]).func_type is Some,
                        raw_views(imports@) == st.imports + raw_views(entries@.take(j as int)),
                    decreases entries@.len() - j,
                {
                    let ghost before = imports@;
                    imports.push(entries[j].copy());
                    proof {
                        assert(raw_views(imports@) =~= raw_views(before).push(entries@[j as int]@));
                        assert(raw_views(entries@.take(j as int + 1)) =~= raw_views(
                            entries@.take(j as int),
                        ).push(entries@[j as int]@));
                    }
                    j += 1;
                    proof {
                        assert(raw_views(imports@) =~= st.imports + raw_views(entries@.take(j as int)));
                    }
                }
                proof {
                    assert(entries@.take(j as int) =~= entries@);
                }
            },
            Section::Types { groups, truncated: failed } => {
                if *failed {
                    proof {
                        lemma_scan_prefix_err(views, i as int + 1);
                    }
                    return Err(ParseError::MalformedBinary);
                }
                let mut j: usize = 0;
                while j < groups.len()
                    invariant
                        j <= groups@.len(),
                        table@.len() >= j,
                        table_map(table@) =~= st.types.union_prefer_right(
                            indexed_groups(group_views(groups@.take(j as int))),
                        ),
                    decreases groups@.len() - j,
                {
                    let g = Rc::clone(&groups[j]);
                    let ghost before = table@;
                    if j < table.len() {
                        table.set(j, Some(g));
                        assert(table@ == before.update(j as int, Some(g)));
                    } else {
                        table.push(Some(g));
                        assert(table@ == before.push(Some(g)));
                    }
                    proof {
                        assert(indexed_groups(group_views(groups@.take(j as int + 1))) =~= indexed_groups(
                            group_views(groups@.take(j as int)),
                        ).insert(j as int, g@));
                        assert(table_map(table@) =~= table_map(before).insert(j as int, g@));
                        assert(st.types.union_prefer_right(
                            indexed_groups(group_views(groups@.take(j as int))).insert(j as int, g@),
                        ) =~= st.types.union_prefer_right(
                            indexed_groups(group_views(groups@.take(j as int))),
                        ).insert(j as int, g@));
                    }
                    j += 1;
                    proof {
                        assert(table_map(table@) =~= st.types.union_prefer_right(
                            indexed_groups(group_views(groups@.take(j as int))),
                        ));
                    }
                }
                proof {
                    assert(groups@.take(j as int) =~= groups@);
                }
            },
            Section::Other => {},
        }
        i += 1;
    }
    proof {
        assert(views.take(i as int) =~= views);
    }
    if truncated {
        return Err(ParseError::MalformedBinary);
    }
    let ghost st = ScanState { imports: raw_views(imports@), types: table_map(table@) };
    let mut funcs: Vec<ImportFunc> = Vec::new();
    let mut k: usize = 0;
    while k < imports.len()
        invariant
            k <= imports@.len(),
            st == (ScanState { imports: raw_views(imports@), types: table_map(table@) }),
            forall|m: int| 0 <= m < imports@.len() ==> (#[trigger] imports@[m]).func_type is Some,
            forall|m: int|
                0 <= m < k ==> st.types.contains_key(
                    (#[trigger] st.imports[m]).func_type.unwrap() as int,
                ),
            funcs@.map_values(|f: ImportFunc| f@) == st.imports.take(k as int).map_values(
                with_type(st.types),
            ),
        decreases imports@.len() - k,
    {
        let imp = &imports[k];
        let index = imp.func_type.unwrap() as usize;
        if index >= table.len() || table[index].is_none() {
            assert(!st.types.contains_key(st.imports[k as int].func_type.unwrap() as int));
            return Err(ParseError::UnresolvedType);
        }
        let ty = Rc::clone(table[index].as_ref().unwrap());
        let ghost before = funcs@;
        let f = ImportFunc { module: imp.module.clone(), name: imp.name.clone(), ty };
        proof {
            assert(st.imports[k as int] == imp@);
            assert(table_map(table@)[index as int] == table@[index as int].unwrap()@);
            assert(f@ == with_type(st.types)(st.imports[k as int]));
        }
        funcs.push(f);
        proof {
            assert(funcs@.map_values(|f: ImportFunc| f@) =~= before.map_values(|f: ImportFunc| f@).push(
                f@,
            ));
            assert(st.imports.take(k as int + 1).map_values(with_type(st.types)) =~= st.imports.take(
                k as int,
            ).map_values(with_type(st.types)).push(with_type(st.types)(st.imports[k as int])));
        }
        k += 1;
        proof {
            assert(st.imports.take(k as int).drop_last() =~= st.imports.take(k as int - 1));
            assert(funcs@.map_values(|f: ImportFunc| f@) =~= st.imports.take(k as int).map_values(
                with_type(st.types),
            ));
        }
    }
    proof {
        assert(st.imports.take(k as int) =~= st.imports);
    }
    Ok(funcs)
}

/// The kind of a payload of a module, as far as the scanner reads it.
#[derive(Debug, Clone, Copy, PartialEq, Eq, Structural)]
pub enum PayloadKind {
    Imports,
    Types,
    Other,
}

/// The kinds of the payloads that wasmparser reads from `bytes`, and whether
/// it failed after them.
pub uninterp spec fn wasm_payloads(bytes: Seq<u8>) -> (Seq<PayloadKind>, bool);

/// The entries of the import section that is payload `index` of `bytes`, and
/// whether reading it failed after them.
pub uninterp spec fn wasm_import_section(bytes: Seq<u8>, index: int) -> (Seq<RawImportView>, bool);

/// For each recursion group of the type section that is payload `index` of
/// `bytes`: whether it is explicit, and how many types it holds; and whether
/// reading the section failed after them.
pub uninterp spec fn wasm_type_section(bytes: Seq<u8>, index: int) -> (Seq<(bool, usize)>, bool);

/// Whether type `sub` of group `group` of type section `section` is final,
/// and whether it is a function type.
pub uninterp spec fn wasm_sub_type(bytes: Seq<u8>, section: int, group: int, sub: int) -> (
    bool,
    bool,
);

/// The parameter types (or, where `results`, the result types) of that
/// function type.
pub uninterp spec fn wasm_value_types(
    bytes: Seq<u8>,
    section: int,
    group: int,
    sub: int,
    results: bool,
) -> Seq<ValueType>;

/// Relies on `wasmparser::Parser::parse_all`: the kind of each payload of the
/// module in order, up to the first that fails to parse (`true` then). The
/// result depends on the bytes alone.
#[verifier::external_body]
fn payload_kinds(bytes: &[u8]) -> (r: (Vec<PayloadKind>, bool))
    ensures
        (r.0@, r.1) == wasm_payloads(bytes@),
{
    let mut kinds = Vec::new();
    for payload in Parser::new(0).parse_all(bytes) {
        match payload {
            Ok(Payload::ImportSection(_)) => kinds.push(PayloadKind::Imports),
            Ok(Payload::TypeSection(_)) => kinds.push(PayloadKind::Types),
            Ok(_) => kinds.push(PayloadKind::Other),
            Err(_) => return (kinds, true),
        }
    }
    (kinds, false)
}

/// Relies on `Parser::parse_all` and on iterating a
/// `wasmparser::ImportSectionReader` with the fields of `wasmparser::Import`:
/// the entries of import section `index`, in order, up to the first that
/// fails to read (`true` then).
#[verifier::external_body]
fn import_section(bytes: &[u8], index: usize) -> (r: (Vec<RawImport>, bool))
    requires
        index < wasm_payloads(bytes@).0.len(),
        wasm_payloads(bytes@).0[index as int] == PayloadKind::Imports,
    ensures
        (raw_views(r.0@), r.1) == wasm_import_section(bytes@, index as int),
{
    let Some(Ok(Payload::ImportSection(reader))) = Parser::new(0).parse_all(bytes).nth(index) else {
        return (Vec::new(), true)
    };
    let mut entries = Vec::new();
    for import in reader {
        let Ok(import) = import else { return (entries, true) };
        let func_type = match import.ty {
            TypeRef::Func(i) => Some(i),
            _ => None,
        };
        entries.push(RawImport { module: import.module.to_string(), name: import.name.to_string(), func_type });
    }
    (entries, false)
}

/// Relies on `Parser::parse_all`, on iterating a
/// `wasmparser::TypeSectionReader`, and on `RecGroup::is_explicit_rec_group`
/// and `RecGroup::types`: per group of type section `index`, whether it is
/// explicit and how many types it holds, up to the first group that fails to
/// read (`true` then).
#[verifier::external_body]
fn type_section(bytes: &[u8], index: usize) -> (r: (Vec<(bool, usize)>, bool))
    requires
        index < wasm_payloads(bytes@).0.len(),
        wasm_payloads(bytes@).0[index as int] == PayloadKind::Types,
    ensures
        (r.0@, r.1) == wasm_type_section(bytes@, index as int),
{
    let Some(Ok(Payload::TypeSection(reader))) = Parser::new(0).parse_all(bytes).nth(index) else {
        return (Vec::new(), true)
    };
    let mut groups = Vec::new();
    for group in reader {
        match group {
            Ok(g) => groups.push((g.is_explicit_rec_group(), g.types().len())),
            Err(_) => return (groups, true),
        }
    }
    (groups, false)
}

/// Relies on `Parser::parse_all`, the type section reader, `RecGroup::types`
/// and the fields of `wasmparser::SubType`: whether the type is final, and
/// whether it is a function type.
#[verifier::external_body]
fn sub_type(bytes: &[u8], section: usize, group: usize, sub: usize) -> (r: (bool, bool))
    requires
        section < wasm_payloads(bytes@).0.len(),
        wasm_payloads(bytes@).0[section as int] == PayloadKind::Types,
        group < wasm_type_section(bytes@, section as int).0.len(),
        sub < wasm_type_section(bytes@, section as int).0[group as int].1,
    ensures
        r == wasm_sub_type(bytes@, section as int, group as int, sub as int),
{
    let Some(Ok(Payload::TypeSection(reader))) = Parser::new(0).parse_all(bytes).nth(section) else {
        return (false, false)
    };
    let Some(Ok(g)) = reader.into_iter().nth(group) else { return (false, false) };
    let Some(t) = g.types().nth(sub) else { return (false, false) };
    (t.is_final, matches!(t.composite_type.inner, CompositeInnerType::Func(_)))
}

/// Relies on `Parser::parse_all`, the type section reader, `RecGroup::types`,
/// `FuncType::params`, `FuncType::results` and the variants of
/// `wasmparser::ValType`: the parameter or result types of a function type.
#[verifier::external_body]
fn value_types(bytes: &[u8], section: usize, group: usize, sub: usize, results: bool) -> (r: Vec<
    ValueType,
>)
    requires
        section < wasm_payloads(bytes@).0.len(),
        wasm_payloads(bytes@).0[section as int] == PayloadKind::Types,
        group < wasm_type_section(bytes@, section as int).0.len(),
        sub < wasm_type_section(bytes@, section as int).0[group as int].1,
        wasm_sub_type(bytes@, section as int, group as int, sub as int).1,
    ensures
        r@ == wasm_value_types(bytes@, section as int, group as int, sub as int, results),
{
    let Some(Ok(Payload::TypeSection(reader))) = Parser::new(0).parse_all(bytes).nth(section) else {
        return vec![]
    };
    let Some(Ok(g)) = reader.into_iter().nth(group) else { return vec![] };
    let Some(CompositeInnerType::Func(f)) = g.types().nth(sub).map(|t| &t.composite_type.inner) else {
        return vec![]
    };
    (if results { f.results() } else { f.params() }).iter().map(|v| match v {
        ValType::I32 => ValueType::I32,
        ValType::I64 => ValueType::I64,
        ValType::F32 => ValueType::F32,
        ValType::F64 => ValueType::F64,
        ValType::V128 => ValueType::V128,
        ValType::Ref(_) => ValueType::Ref,
    }).collect()
}

/// Type `t` of group `g` of type section `s` of a module.
pub open spec fn module_sub_type(bytes: Seq<u8>, s: int, g: int, t: int) -> SubTypeView {
    SubTypeView {
        is_final: wasm_sub_type(bytes, s, g, t).0,
        func: if wasm_sub_type(bytes, s, g, t).1 {
            Some((wasm_value_types(bytes, s, g, t, false), wasm_value_types(bytes, s, g, t, true)))
        } else {
            None
        },
    }
}

/// Group `g` of type section `s` of a module.
pub open spec fn module_group(bytes: Seq<u8>, s: int, g: int) -> TypeGroupView {
    TypeGroupView {
        explicit: wasm_type_section(bytes, s).0[g].0,
        types: Seq::new(
            wasm_type_section(bytes, s).0[g].1 as nat,
            |t: int| module_sub_type(bytes, s, g, t),
        ),
    }
}

/// Payload `s` of a module, as the scanner reads it.
pub open spec fn module_section(bytes: Seq<u8>, s: int) -> SectionView {
    match wasm_payloads(bytes).0[s] {
        PayloadKind::Imports => SectionView::Imports {
            entries: wasm_import_section(bytes, s).0,
            truncated: wasm_import_section(bytes, s).1,
        },
        PayloadKind::Types => SectionView::Types {
            groups: Seq::new(wasm_type_section(bytes, s).0.len(), |g: int| module_group(bytes, s, g)),
            truncated: wasm_type_section(bytes, s).1,
        },
        PayloadKind::Other => SectionView::Other,
    }
}

/// The sections of a module, in order.
pub open spec fn module_sections(bytes: Seq<u8>) -> Seq<SectionView> {
    Seq::new(wasm_payloads(bytes).0.len(), |s: int| module_section(bytes, s))
}

fn sub_type_at(bytes: &[u8], s: usize, g: usize, t: usize) -> (r: SubTypeInfo)
    requires
        s < wasm_payloads(bytes@).0.len(),
        wasm_payloads(bytes@).0[s as int] == PayloadKind::Types,
        g < wasm_type_section(bytes@, s as int).0.len(),
        t < wasm_type_section(bytes@, s as int).0[g as int].1,
    ensures
        r@ == module_sub_type(bytes@, s as int, g as int, t as int),
{
    let (is_final, is_func) = sub_type(bytes, s, g, t);
    let func = if is_func {
        Some(
            FuncSignature {
                params: value_types(bytes, s, g, t, false),
                results: value_types(bytes, s, g, t, true),
            },
        )
    } else {
        None
    };
    SubTypeInfo { is_final, func }
}

#[verifier::loop_isolation(false)]
fn group_at(bytes: &[u8], s: usize, g: usize, explicit: bool, n: usize) -> (r: TypeGroup)
    requires
        s < wasm_payloads(bytes@).0.len(),
        wasm_payloads(bytes@).0[s as int] == PayloadKind::Types,
        g < wasm_type_section(bytes@, s as int).0.len(),
        wasm_type_section(bytes@, s as int).0[g as int] == (explicit, n),
    ensures
        r@ == module_group(bytes@, s as int, g as int),
{
    let mut types: Vec<SubTypeInfo> = Vec::new();
    let mut t: usize = 0;
    while t < n
        invariant
            t <= n,
            sub_type_views(types@) =~= Seq::new(
                t as nat,
                |x: int| module_sub_type(bytes@, s as int, g as int, x),
            ),
        decreases n - t,
    {
        let info = sub_type_at(bytes, s, g, t);
        let ghost before = types@;
        types.push(info);
        t += 1;
        proof {
            assert(sub_type_views(types@) =~= sub_type_views(before).push(info@));
        }
    }
    TypeGroup { explicit, types }
}

/// The sections of a module as the scanner reads them, and whether reading
/// failed after them.
fn read_sections(wasm_binary: &[u8]) -> (r: (Vec<Section>, bool))
    ensures
        section_views(r.0@) == module_sections(wasm_binary@),
        r.1 == wasm_payloads(wasm_binary@).1,
{
    let (kinds, failed) = payload_kinds(wasm_binary);
    let mut sections: Vec<Section> = Vec::new();
    let mut i: usize = 0;
    while i < kinds.len()
        invariant
            kinds@ == wasm_payloads(wasm_binary@).0,
            i <= kinds@.len(),
            section_views(sections@) =~= Seq::new(
                i as nat,
                |s: int| module_section(wasm_binary@, s),
            ),
        decreases kinds@.len() - i,
    {
        let section = match kinds[i] {
            PayloadKind::Imports => {
                let (entries, truncated) = import_section(wasm_binary, i);
                Section::Imports { entries, truncated }
            },
            PayloadKind::Types => {
                let (heads, truncated) = type_section(wasm_binary, i);
                let mut groups: Vec<Rc<TypeGroup>> = Vec::new();
                let mut g: usize = 0;
                while g < heads.len()
                    invariant
                        kinds@ == wasm_payloads(wasm_binary@).0,
                        i < kinds@.len(),
                        kinds@[i as int] == PayloadKind::Types,
                        heads@ == wasm_type_section(wasm_binary@, i as int).0,
                        g <= heads@.len(),
                        group_views(groups@) =~= Seq::new(
                            g as nat,
                            |x: int| module_group(wasm_binary@, i as int, x),
                        ),
                    decreases heads@.len() - g,
                {
                    let (explicit, n) = heads[g];
                    let group = group_at(wasm_binary, i, g, explicit, n);
                    let ghost before = groups@;
                    let rc = Rc::new(group);
                    groups.push(rc);
                    g += 1;
                    proof {
                        assert(group_views(groups@) =~= group_views(before).push(rc@));
                    }
                }
                Section::Types { groups, truncated }
            },
            PayloadKind::Other => Section::Other,
        };
        let ghost before = sections@;
        proof {
            assert(section@ == module_section(wasm_binary@, i as int));
        }
        sections.push(section);
        i += 1;
        proof {
            assert(section_views(sections@) =~= section_views(before).push(section@));
        }
    }
    (sections, failed)
}

/// Extracts the imported functions of a module and their types, reading the
/// module with wasmparser. Fails with `NonFunctionImport` on the first import
/// of a table, memory, global or tag, `MalformedBinary` where the bytes stop
/// being a module, and `UnresolvedType` where an import names a type that is
/// not declared.
pub fn parse_import_funcs(wasm_binary: &[u8]) -> (r: Result<Vec<ImportFunc>, ParseError>)
    ensures
        result_view(r) == import_funcs_of(
            module_sections(wasm_binary@),
            wasm_payloads(wasm_binary@).1,
        ),
{
    let (sections, truncated) = read_sections(wasm_binary);
    import_funcs_from_sections(sections.as_slice(), truncated)
}

/// The import's name is one of `blacklist`.
pub open spec fn is_blacklisted(blacklist: Seq<String>, f: ImportFunc) -> bool {
    exists|j: int| 0 <= j < blacklist.len() && (#[trigger] blacklist[j])@ == f.name@
}

/// The filter of a blacklist.
pub open spec fn blacklisted_by(blacklist: Seq<String>) -> spec_fn(ImportFunc) -> bool {
    |f: ImportFunc| is_blacklisted(blacklist, f)
}

/// The imports that a list of references points at.
pub open spec fn targets(s: Seq<&ImportFunc>) -> Seq<ImportFunc> {
    s.map_values(|f: &ImportFunc| *f)
}

/// The imports whose name is in `blacklist`, in their order.
pub fn forbidden_imports<'i>(imports: &'i [ImportFunc], blacklist: &[String]) -> (r: Vec<
    &'i ImportFunc,
>)
    ensures
        targets(r@) == imports@.filter(blacklisted_by(blacklist@)),
        blacklist@.len() == 0 ==> r@.len() == 0,
{
    let ghost p = blacklisted_by(blacklist@);
    let mut r: Vec<&'i ImportFunc> = Vec::new();
    let mut i: usize = 0;
    while i < imports.len()
        invariant
            i <= imports@.len(),
            p == blacklisted_by(blacklist@),
            targets(r@) == imports@.take(i as int).filter(p),
        decreases imports@.len() - i,
    {
        proof {
            assert(imports@.take(i as int + 1) =~= imports@.take(i as int).push(imports@[i as int]));
            imports@.take(i as int).lemma_filter_push(imports@[i as int], p);
        }
        let mut listed = false;
        let mut j: usize = 0;
        while j < blacklist.len()
            invariant
                j <= blacklist@.len(),
                i < imports@.len(),
                listed == exists|k: int| 0 <= k < j && (#[trigger] blacklist@[k])@ == imports@[i as int].name@,
            decreases blacklist@.len() - j,
        {
            if blacklist[j] == imports[i].name {
                listed = true;
            }
            j += 1;
        }
        let ghost before = r@;
        assert(listed == p(imports@[i as int]));
        if listed {
            r.push(&imports[i]);
            assert(targets(r@) =~= targets(before).push(imports@[i as int]));
        }
        i += 1;
    }
    assert(imports@.take(i as int) =~= imports@);
    proof {
        if blacklist@.len() == 0 {
            assert forall|k: int| 0 <= k < imports@.len() implies !p(imports@[k]) by {}
            imports@.lemma_all_neg_filter_empty(p);
        }
    }
    r
}

/// No section reader failed part way.
pub open spec fn read_whole(sections: Seq<SectionView>) -> bool {
    forall|k: int|
        0 <= k < sections.len() ==> match #[trigger] sections[k] {
            SectionView::Imports { truncated, .. } => !truncated,
            SectionView::Types { truncated, .. } => !truncated,
            SectionView::Other => true,
        }
}

/// Some section imports a table, a memory, a global or a tag.
pub open spec fn imports_non_function(sections: Seq<SectionView>) -> bool {
    exists|k: int|
        0 <= k < sections.len() && (#[trigger] sections[k] matches SectionView::Imports {
            entries,
            ..
        } && has_non_function(entries))
}
proof fn lemma_scan_whole(sections: Seq<SectionView>)
    requires
        read_whole(sections),
    ensures
        scan_sections(sections) is Err ==> scan_sections(sections) == Err::<ScanState, ParseError>(
            ParseError::NonFunctionImport,
        ),
        imports_non_function(sections) ==> scan_sections(sections) == Err::<ScanState, ParseError>(
            ParseError::NonFunctionImport,
        ),
    decreases sections.len(),
{
    if sections.len() > 0 {
        let init = sections.drop_last();
        assert forall|k: int| 0 <= k < init.len() implies match #[trigger] init[k] {
            SectionView::Imports { truncated, .. } => !truncated,
            SectionView::Types { truncated, .. } => !truncated,
            SectionView::Other => true,
        } by {
            assert(init[k] == sections[k]);
        }
        lemma_scan_whole(init);
        let last = sections.last();
        assert(match last {
            SectionView::Imports { truncated, .. } => !truncated,
            SectionView::Types { truncated, .. } => !truncated,
            SectionView::Other => true,
        });
        if imports_non_function(sections) {
            let k = choose|k: int|
                0 <= k < sections.len() && (#[trigger] sections[k] matches SectionView::Imports {
                    entries,
                    ..
                } && has_non_function(entries));
            if k < sections.len() - 1 {
                assert(init[k] == sections[k]);
                assert(imports_non_function(init));
            }
        }
    }
}

/// A module that reads without failure and imports anything but a function
/// is refused with `NonFunctionImport`: the entry is not skipped.
pub proof fn lemma_non_function_import_refused(sections: Seq<SectionView>, truncated: bool)
    requires
        read_whole(sections),
        imports_non_function(sections),
    ensures
        import_funcs_of(sections, truncated) == Err::<Seq<ImportFuncView>, ParseError>(
            ParseError::NonFunctionImport,
        ),
{
    lemma_scan_whole(sections);
}

/// The import entries that the sections declare, in order.
pub open spec fn declared_imports(sections: Seq<SectionView>) -> Seq<RawImportView>
    decreases sections.len(),
{
    if sections.len() == 0 {
        Seq::empty()
    } else {
        declared_imports(sections.drop_last()) + match sections.last() {
            SectionView::Imports { entries, .. } => entries,
            _ => Seq::empty(),
        }
    }
}

/// The types that the sections declare, by index; a later type section
/// replaces the indices it declares.
pub open spec fn declared_types(sections: Seq<SectionView>) -> Map<int, TypeGroupView>
    decreases sections.len(),
{
    if sections.len() == 0 {
        Map::empty()
    } else {
        match sections.last() {
            SectionView::Types { groups, .. } => declared_types(sections.drop_last()).union_prefer_right(
                indexed_groups(groups),
            ),
            _ => declared_types(sections.drop_last()),
        }
    }
}

proof fn lemma_scan_declared(sections: Seq<SectionView>)
    requires
        read_whole(sections),
        !imports_non_function(sections),
    ensures
        scan_sections(sections) == Ok::<ScanState, ParseError>(
            ScanState { imports: declared_imports(sections), types: declared_types(sections) },
        ),
    decreases sections.len(),
{
    if sections.len() > 0 {
        let init = sections.drop_last();
        assert forall|k: int| 0 <= k < init.len() implies match #[trigger] init[k] {
            SectionView::Imports { truncated, .. } => !truncated,
            SectionView::Types { truncated, .. } => !truncated,
            SectionView::Other => true,
        } by {
            assert(init[k] == sections[k]);
        }
        if imports_non_function(init) {
            let k = choose|k: int|
                0 <= k < init.len() && (#[trigger] init[k] matches SectionView::Imports { entries, .. }
                    && has_non_function(entries));
            assert(sections[k] == init[k]);
        }
        lemma_scan_declared(init);
        let last = sections.last();
        assert(match last {
            SectionView::Imports { truncated, .. } => !truncated,
            SectionView::Types { truncated, .. } => !truncated,
            SectionView::Other => true,
        });
        match last {
            SectionView::Imports { entries, .. } => {
                assert(!has_non_function(entries));
            },
            _ => {
                assert(declared_imports(sections) =~= declared_imports(init));
            },
        }
    }
}

/// A module that reads whole and imports only functions, each of a declared
/// type, yields one record per import, in declaration order, with the module
/// and name of the import and the type group that its index names.
pub proof fn lemma_imports_round_trip(sections: Seq<SectionView>)
    requires
        read_whole(sections),
        !imports_non_function(sections),
        forall|i: int|
            0 <= i < declared_imports(sections).len() ==> declared_types(sections).contains_key(
                (#[trigger] declared_imports(sections)[i]).func_type.unwrap() as int,
            ),
    ensures
        import_funcs_of(sections, false) is Ok,
        import_funcs_of(sections, false) matches Ok(funcs) && funcs.len() == declared_imports(
            sections,
        ).len() && forall|i: int|
            0 <= i < funcs.len() ==> {
                let imp = #[trigger] declared_imports(sections)[i];
                &&& funcs[i].module == imp.module
                &&& funcs[i].name == imp.name
                &&& funcs[i].ty == declared_types(sections)[imp.func_type.unwrap() as int]
            },
{
    lemma_scan_declared(sections);
}

} // verus!
