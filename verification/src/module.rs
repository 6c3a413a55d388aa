use vstd::prelude::*;
use crate::error::DecodeError;
use crate::types::{ValType, Limits, TableType, GlobalType, ImportDesc, Import, Export, ExternKind, ModuleInfo, ModuleSpec, Custom, empty_module};
use crate::decode::{decode, spec_decode, ranges_within, custom_within, law_header_only, law_bodies_match_functions};
use crate::validate::{spec_validate, validate, law_empty_module_is_valid};
use crate::names::{spec_module_name, read_module_name};
use crate::hints::{spec_module_hints, module_type_hints, law_module_types_fit};
use crate::items::{ImportItem, ExportItem};
use crate::reader::Item;
use vstd::string::StringSliceAdditionalSpecFns;

verus! {

/// Why a binary could not be compiled into a module.
#[derive(Debug, Clone, Copy, PartialEq, Eq, Structural)]
pub enum CompileError {
    /// The binary is not a well-formed, valid module.
    Validate(DecodeError),
}

/// Compiling a binary: decoding it, then validating what was decoded.
pub open spec fn spec_compile(s: Seq<u8>) -> Result<ModuleSpec, CompileError> {
    match spec_decode(s) {
        Err(e) => Err(CompileError::Validate(e)),
        Ok(m) => match spec_validate(s, m) {
            Err(e) => Err(CompileError::Validate(DecodeError::Invalid(e))),
            Ok(()) => Ok(m),
        },
    }
}

/// Why a serialized module could not be read back.
#[derive(Debug, Clone, Copy, PartialEq, Eq, Structural)]
pub enum DeserializeError {
    Compiler(CompileError),
}

/// Why a module could not be serialized (never produced: a module keeps its binary).
#[derive(Debug, Clone, Copy, PartialEq, Eq, Structural)]
pub enum SerializeError {
    Generic,
}

/// A function signature.
#[derive(Debug, Clone, PartialEq, Eq)]
pub struct FunctionType {
    pub params: Vec<ValType>,
    pub results: Vec<ValType>,
}

/// A memory type: its limits in pages and whether it is shared.
#[derive(Debug, Clone, Copy, PartialEq, Eq, Structural)]
pub struct MemoryType {
    pub limits: Limits,
    pub shared: bool,
}

/// The type of an external value.
#[derive(Debug, Clone, PartialEq, Eq)]
pub enum ExternType {
    Function(FunctionType),
    Global(GlobalType),
    Memory(MemoryType),
    Table(TableType),
}

/// An `ExternType` as a mathematical value.
pub enum ExternTypeView {
    Function { params: Seq<ValType>, results: Seq<ValType> },
    Global(GlobalType),
    Memory(MemoryType),
    Table(TableType),
}

impl View for ExternType {
    type V = ExternTypeView;

    open spec fn view(&self) -> ExternTypeView {
        match self {
            ExternType::Function(f) => ExternTypeView::Function { params: f.params@, results: f.results@ },
            ExternType::Global(g) => ExternTypeView::Global(*g),
            ExternType::Memory(m) => ExternTypeView::Memory(*m),
            ExternType::Table(t) => ExternTypeView::Table(*t),
        }
    }
}

/// The kind of an extern type.
pub open spec fn extern_type_kind(t: ExternTypeView) -> ExternKind {
    match t {
        ExternTypeView::Function { .. } => ExternKind::Function,
        ExternTypeView::Global(_) => ExternKind::Global,
        ExternTypeView::Memory(_) => ExternKind::Memory,
        ExternTypeView::Table(_) => ExternKind::Table,
    }
}

fn kind_of_extern_type(t: &ExternType) -> (r: ExternKind)
    ensures
        r == extern_type_kind(t@),
{
    match t {
        ExternType::Function(_) => ExternKind::Function,
        ExternType::Global(_) => ExternKind::Global,
        ExternType::Memory(_) => ExternKind::Memory,
        ExternType::Table(_) => ExternKind::Table,
    }
}

/// The kind of what an import brings in.
pub open spec fn import_kind(d: ImportDesc) -> ExternKind {
    match d {
        ImportDesc::Function(_) => ExternKind::Function,
        ImportDesc::Table(_) => ExternKind::Table,
        ImportDesc::Memory(_) => ExternKind::Memory,
        ImportDesc::Global(_) => ExternKind::Global,
    }
}

fn kind_of_import(d: ImportDesc) -> (r: ExternKind)
    ensures
        r == import_kind(d),
{
    match d {
        ImportDesc::Function(_) => ExternKind::Function,
        ImportDesc::Table(_) => ExternKind::Table,
        ImportDesc::Memory(_) => ExternKind::Memory,
        ImportDesc::Global(_) => ExternKind::Global,
    }
}

/// The type assumed for an import or export of a kind when no hint says
/// more: a function of no parameters and no results, a constant `i32`
/// global, an unshared memory of at least one page, a table of at least one
/// element.
pub open spec fn default_extern_type(kind: ExternKind) -> ExternTypeView {
    match kind {
        ExternKind::Function => ExternTypeView::Function { params: Seq::empty(), results: Seq::empty() },
        ExternKind::Global => ExternTypeView::Global(GlobalType { content: ValType::I32, mutable: false }),
        ExternKind::Memory => ExternTypeView::Memory(MemoryType { limits: Limits { min: 1, max: None }, shared: false }),
        ExternKind::Table => ExternTypeView::Table(TableType { limits: Limits { min: 1, max: None } }),
    }
}

fn make_default_extern_type(kind: ExternKind) -> (r: ExternType)
    ensures
        r@ == default_extern_type(kind),
{
    match kind {
        ExternKind::Function => ExternType::Function(FunctionType { params: Vec::new(), results: Vec::new() }),
        ExternKind::Global => ExternType::Global(GlobalType { content: ValType::I32, mutable: false }),
        ExternKind::Memory => ExternType::Memory(MemoryType { limits: Limits { min: 1, max: None }, shared: false }),
        ExternKind::Table => ExternType::Table(TableType { limits: Limits { min: 1, max: None } }),
    }
}

pub(crate) fn copy_valtypes(v: &Vec<ValType>) -> (r: Vec<ValType>)
    ensures
        r@ == v@,
{
    let mut r: Vec<ValType> = Vec::new();
    let mut i: usize = 0;
    while i < v.len()
        invariant
            i <= v@.len(),
            r@ == v@.subrange(0, i as int),
        decreases v@.len() - i,
    {
        r.push(v[i]);
        i = i + 1;
        proof {
            assert(r@ =~= v@.subrange(0, i as int));
        }
    }
    proof {
        assert(r@ =~= v@);
    }
    r
}

pub(crate) fn copy_extern_type(t: &ExternType) -> (r: ExternType)
    ensures
        r@ == t@,
{
    match t {
        ExternType::Function(f) => ExternType::Function(FunctionType { params: copy_valtypes(&f.params), results: copy_valtypes(&f.results) }),
        ExternType::Global(g) => ExternType::Global(*g),
        ExternType::Memory(m) => ExternType::Memory(*m),
        ExternType::Table(t) => ExternType::Table(*t),
    }
}

/// Types for the imports and exports of a module, in their order.
#[derive(Debug, Clone, PartialEq, Eq)]
pub struct ModuleTypeHints {
    pub imports: Vec<ExternType>,
    pub exports: Vec<ExternType>,
}

/// The views of a sequence of extern types.
pub open spec fn extern_types_view(v: Seq<ExternType>) -> Seq<ExternTypeView> {
    v.map_values(|t: ExternType| t@)
}

/// Why type hints were refused.
#[derive(Debug, Clone, Copy, PartialEq, Eq, Structural)]
pub enum TypeHintsError {
    /// There are not as many import hints as imports.
    ImportsLength,
    /// The import hint at this index is not of the import's kind.
    ImportKind(usize),
    /// There are not as many export hints as exports.
    ExportsLength,
    /// The export hint at this index is not of the export's kind.
    ExportKind(usize),
}

/// The first index at which a hint's kind differs from the declared kind,
/// if there is one.
pub open spec fn first_kind_mismatch(hints: Seq<ExternTypeView>, kinds: Seq<ExternKind>) -> Option<int> {
    if exists|i: int| 0 <= i < hints.len() && extern_type_kind(hints[i]) != kinds[i] {
        Some(choose|i: int| 0 <= i < hints.len() && extern_type_kind(hints[i]) != kinds[i]
            && forall|j: int| 0 <= j < i ==> extern_type_kind(hints[j]) == kinds[j])
    } else {
        None
    }
}

/// The kinds of the imports of a module.
pub open spec fn import_kinds(m: ModuleSpec) -> Seq<ExternKind> {
    m.imports.map_values(|imp: Import| import_kind(imp.desc))
}

/// The kinds of the exports of a module.
pub open spec fn export_kinds(m: ModuleSpec) -> Seq<ExternKind> {
    m.exports.map_values(|e: Export| e.kind)
}

/// Whether type hints fit a module, and if not, why: the imports are
/// checked before the exports, the length before the kinds, and the first
/// mismatching kind is reported.
pub open spec fn spec_check_hints(m: ModuleSpec, imports: Seq<ExternTypeView>, exports: Seq<ExternTypeView>) -> Result<(), TypeHintsError> {
    if imports.len() != m.imports.len() {
        Err(TypeHintsError::ImportsLength)
    } else if first_kind_mismatch(imports, import_kinds(m)) is Some {
        Err(TypeHintsError::ImportKind(first_kind_mismatch(imports, import_kinds(m))->0 as usize))
    } else if exports.len() != m.exports.len() {
        Err(TypeHintsError::ExportsLength)
    } else if first_kind_mismatch(exports, export_kinds(m)) is Some {
        Err(TypeHintsError::ExportKind(first_kind_mismatch(exports, export_kinds(m))->0 as usize))
    } else {
        Ok(())
    }
}

/// Finds the first hint whose kind is not the kind declared at its index.
fn find_kind_mismatch(hints: &Vec<ExternType>, kinds: &Vec<ExternKind>) -> (r: Option<usize>)
    requires
        hints@.len() == kinds@.len(),
    ensures
        match r {
            Some(i) => first_kind_mismatch(extern_types_view(hints@), kinds@) == Some(i as int),
            None => first_kind_mismatch(extern_types_view(hints@), kinds@) is None,
        },
{
    let ghost hv = extern_types_view(hints@);
    let mut i: usize = 0;
    while i < hints.len()
        invariant
            hints@.len() == kinds@.len(),
            hv == extern_types_view(hints@),
            i <= hints@.len(),
            forall|j: int| 0 <= j < i ==> extern_type_kind(#[trigger] hv[j]) == kinds@[j],
        decreases hints@.len() - i,
    {
        if kind_of_extern_type(&hints[i]) != kinds[i] {
            proof {
                assert(extern_type_kind(hv[i as int]) != kinds@[i as int]);
                let c = choose|c: int| 0 <= c < hv.len() && extern_type_kind(hv[c]) != kinds@[c]
                    && forall|j: int| 0 <= j < c ==> extern_type_kind(hv[j]) == kinds@[j];
                assert(0 <= c < hv.len() && extern_type_kind(hv[c]) != kinds@[c]
                    && forall|j: int| 0 <= j < c ==> extern_type_kind(hv[j]) == kinds@[j]);
                if c < i {
                    assert(extern_type_kind(hv[c]) == kinds@[c]);
                }
                if c > i {
                    assert(extern_type_kind(hv[i as int]) == kinds@[i as int]);
                }
            }
            return Some(i);
        }
        i = i + 1;
    }
    None
}

/// The kinds of the imports of a decoded module.
fn import_kinds_of(info: &ModuleInfo) -> (r: Vec<ExternKind>)
    ensures
        r@ == import_kinds(info@),
{
    let mut r: Vec<ExternKind> = Vec::new();
    let mut i: usize = 0;
    while i < info.imports.len()
        invariant
            i <= info.imports@.len(),
            r@ == import_kinds(info@).subrange(0, i as int),
        decreases info.imports@.len() - i,
    {
        r.push(kind_of_import(info.imports[i].desc));
        i = i + 1;
        proof {
            assert(r@ =~= import_kinds(info@).subrange(0, i as int));
        }
    }
    proof {
        assert(r@ =~= import_kinds(info@));
    }
    r
}

/// The kinds of the exports of a decoded module.
fn export_kinds_of(info: &ModuleInfo) -> (r: Vec<ExternKind>)
    ensures
        r@ == export_kinds(info@),
{
    let mut r: Vec<ExternKind> = Vec::new();
    let mut i: usize = 0;
    while i < info.exports.len()
        invariant
            i <= info.exports@.len(),
            r@ == export_kinds(info@).subrange(0, i as int),
        decreases info.exports@.len() - i,
    {
        r.push(info.exports[i].kind);
        i = i + 1;
        proof {
            assert(r@ =~= export_kinds(info@).subrange(0, i as int));
        }
    }
    proof {
        assert(r@ =~= export_kinds(info@));
    }
    r
}

/// Checks that type hints fit a decoded module.
pub fn check_type_hints(info: &ModuleInfo, hints: &ModuleTypeHints) -> (r: Result<(), TypeHintsError>)
    ensures
        r == spec_check_hints(info@, extern_types_view(hints.imports@), extern_types_view(hints.exports@)),
{
    if hints.imports.len() != info.imports.len() {
        return Err(TypeHintsError::ImportsLength);
    }
    let kinds = import_kinds_of(info);
    if let Some(i) = find_kind_mismatch(&hints.imports, &kinds) {
        return Err(TypeHintsError::ImportKind(i));
    }
    if hints.exports.len() != info.exports.len() {
        return Err(TypeHintsError::ExportsLength);
    }
    let kinds = export_kinds_of(info);
    if let Some(i) = find_kind_mismatch(&hints.exports, &kinds) {
        return Err(TypeHintsError::ExportKind(i));
    }
    Ok(())
}

/// The bytes `start .. start + len` of `s`.
pub fn copy_range(s: &[u8], start: usize, len: usize) -> (r: Vec<u8>)
    requires
        start + len <= s@.len(),
    ensures
        r@ == s@.subrange(start as int, start + len),
{
    let slen = s.len();
    let mut r: Vec<u8> = Vec::new();
    let mut i: usize = 0;
    while i < len
        invariant
            start + len <= s@.len(),
            slen == s@.len(),
            i <= len,
            r@ == s@.subrange(start as int, start + i),
        decreases len - i,
    {
        r.push(s[start + i]);
        i = i + 1;
        proof {
            assert(r@ =~= s@.subrange(start as int, start + i));
        }
    }
    r
}

/// An import of a module: where it comes from and its type.
#[derive(Debug, Clone, PartialEq, Eq)]
pub struct ImportType {
    pub module: Vec<u8>,
    pub name: Vec<u8>,
    pub ty: ExternType,
}

/// An export of a module: its name and type.
#[derive(Debug, Clone, PartialEq, Eq)]
pub struct ExportType {
    pub name: Vec<u8>,
    pub ty: ExternType,
}

/// A compiled WebAssembly module: its binary, what decoding it yielded, an
/// optional name and optional type hints for its imports and exports.
pub struct Module {
    binary: Vec<u8>,
    info: ModuleInfo,
    name: Option<String>,
    type_hints: Option<ModuleTypeHints>,
}

/// The views of type hints.
pub open spec fn hints_view(h: Option<ModuleTypeHints>) -> Option<(Seq<ExternTypeView>, Seq<ExternTypeView>)> {
    match h {
        Some(h) => Some((extern_types_view(h.imports@), extern_types_view(h.exports@))),
        None => None,
    }
}

impl Module {
    /// The binary compiles to the module's sections, whose ranges lie
    /// within the binary, and the type hints, if any, fit them.
    #[verifier::type_invariant]
    spec fn wf(self) -> bool {
        &&& spec_compile(self.binary@) == Ok::<ModuleSpec, CompileError>(self.info@)
        &&& ranges_within(self.binary@, self.info@, self.binary@.len() as usize)
        &&& self.binary@.len() <= usize::MAX
        &&& match hints_view(self.type_hints) {
            Some((i, e)) => spec_check_hints(self.info@, i, e) is Ok,
            None => true,
        }
    }

    /// The binary the module was compiled from.
    pub closed spec fn spec_binary(&self) -> Seq<u8> {
        self.binary@
    }

    /// The sections of the module.
    pub closed spec fn spec_info(&self) -> ModuleSpec {
        self.info@
    }

    /// The module's name.
    pub closed spec fn spec_name(&self) -> Option<Seq<char>> {
        match self.name {
            Some(s) => Some(s@),
            None => None,
        }
    }

    /// The module's type hints.
    pub closed spec fn spec_type_hints(&self) -> Option<(Seq<ExternTypeView>, Seq<ExternTypeView>)> {
        hints_view(self.type_hints)
    }

    /// The invariant, for callers that need its facts.
    pub(crate) fn lemma_wf(&self)
        ensures
            spec_compile(self.spec_binary()) == Ok::<ModuleSpec, CompileError>(self.spec_info()),
            spec_decode(self.spec_binary()) == Ok::<ModuleSpec, DecodeError>(self.spec_info()),
            ranges_within(self.spec_binary(), self.spec_info(), self.spec_binary().len() as usize),
            self.spec_binary().len() <= usize::MAX,
            match self.spec_type_hints() {
                Some((i, e)) => spec_check_hints(self.spec_info(), i, e) is Ok,
                None => true,
            },
    {
        proof {
            use_type_invariant(self);
        }
    }

    /// Compiles a binary: succeeds exactly when it is a well-formed, valid
    /// module. The module's name is the one its name sections give, if any,
    /// and its type hints are the types of its imports and exports.
    pub fn from_binary(binary: &[u8]) -> (r: Result<Module, CompileError>)
        ensures
            match r {
                Ok(m) => spec_compile(binary@) == Ok::<ModuleSpec, CompileError>(m.spec_info())
                    && m.spec_binary() == binary@ && m.spec_name() == spec_module_name(binary@, m.spec_info().customs)
                    && m.spec_type_hints() == Some(spec_module_hints(binary@, m.spec_info())),
                Err(e) => spec_compile(binary@) == Err::<ModuleSpec, CompileError>(e),
            },
    {
        let n: usize = binary.len();
        assert(binary@.len() == n);
        let info = match decode(binary) {
            Ok(info) => info,
            Err(e) => {
                return Err(CompileError::Validate(e));
            },
        };
        proof {
            law_bodies_match_functions(binary@);
        }
        if let Err(e) = validate(binary, &info) {
            return Err(CompileError::Validate(DecodeError::Invalid(e)));
        }
        let hints = module_type_hints(binary, &info);
        let bytes = copy_range(binary, 0, binary.len());
        proof {
            assert(bytes@ =~= binary@);
            law_module_types_fit(binary@, info@);
        }
        let name = read_module_name(binary, &info);
        Ok(Module { binary: bytes, info, name, type_hints: Some(hints) })
    }

    /// Checks that a binary is a well-formed, valid module.
    pub fn validate(binary: &[u8]) -> (r: Result<(), CompileError>)
        ensures
            match r {
                Ok(()) => spec_compile(binary@) is Ok,
                Err(e) => spec_compile(binary@) == Err::<ModuleSpec, CompileError>(e),
            },
    {
        let n: usize = binary.len();
        assert(binary@.len() == n);
        let info = match decode(binary) {
            Ok(info) => info,
            Err(e) => {
                return Err(CompileError::Validate(e));
            },
        };
        proof {
            law_bodies_match_functions(binary@);
        }
        match validate(binary, &info) {
            Ok(()) => Ok(()),
            Err(e) => Err(CompileError::Validate(DecodeError::Invalid(e))),
        }
    }

    /// The module's name, if it has one.
    pub fn name(&self) -> (r: Option<&str>)
        ensures
            match r {
                Some(s) => self.spec_name() == Some(s@),
                None => self.spec_name() is None,
            },
    {
        match &self.name {
            Some(s) => Some(s.as_str()),
            None => None,
        }
    }

    /// Names the module; always succeeds.
    pub fn set_name(&mut self, name: &str) -> (r: bool)
        ensures
            r,
            final(self).spec_name() == Some(name@),
            final(self).spec_binary() == old(self).spec_binary(),
            final(self).spec_info() == old(self).spec_info(),
            final(self).spec_type_hints() == old(self).spec_type_hints(),
    {
        proof {
            use_type_invariant(&*self);
        }
        self.name = Some(name.to_owned());
        true
    }

    /// Sets the type hints when they fit the module's imports and exports
    /// (as many of each, of the same kinds); otherwise leaves the module as
    /// it was and says what does not fit.
    pub fn set_type_hints(&mut self, type_hints: ModuleTypeHints) -> (r: Result<(), TypeHintsError>)
        ensures
            r == spec_check_hints(old(self).spec_info(), extern_types_view(type_hints.imports@), extern_types_view(type_hints.exports@)),
            r is Ok ==> final(self).spec_type_hints() == hints_view(Some(type_hints)),
            r is Err ==> final(self).spec_type_hints() == old(self).spec_type_hints(),
            final(self).spec_binary() == old(self).spec_binary(),
            final(self).spec_info() == old(self).spec_info(),
            final(self).spec_name() == old(self).spec_name(),
    {
        proof {
            use_type_invariant(&*self);
        }
        check_type_hints(&self.info, &type_hints)?;
        self.type_hints = Some(type_hints);
        Ok(())
    }

    /// The binary the module was compiled from.
    pub fn binary(&self) -> (r: &[u8])
        ensures
            r@ == self.spec_binary(),
    {
        self.binary.as_slice()
    }

    /// The decoded sections of the module.
    pub fn info(&self) -> (r: &ModuleInfo)
        ensures
            r@ == self.spec_info(),
    {
        &self.info
    }

    /// The module's imports in order, each with its module and field names
    /// and its type: the hint for it if the module has type hints, else the
    /// default type for its kind.
    pub fn imports(&self) -> (r: Vec<ImportType>)
        ensures
            r@.len() == self.spec_info().imports.len(),
            forall|i: int| 0 <= i < r@.len() ==> (#[trigger] r@[i])@ == spec_import_type(
                self.spec_binary(),
                self.spec_info().imports[i],
                hint_at(self.spec_type_hints(), true, i),
            ),
    {
        proof {
            use_type_invariant(self);
        }
        let mut r: Vec<ImportType> = Vec::new();
        let mut i: usize = 0;
        while i < self.info.imports.len()
            invariant
                i <= self.info.imports@.len(),
                r@.len() == i,
                ranges_within(self.binary@, self.info@, self.binary@.len() as usize),
                self.binary@.len() <= usize::MAX,
                match hints_view(self.type_hints) {
                    Some((h, e)) => spec_check_hints(self.info@, h, e) is Ok,
                    None => true,
                },
                forall|k: int| 0 <= k < i ==> (#[trigger] r@[k])@ == spec_import_type(
                    self.binary@,
                    self.info@.imports[k],
                    hint_at(hints_view(self.type_hints), true, k),
                ),
            decreases self.info.imports@.len() - i,
        {
            let imp = self.info.imports[i];
            assert(ImportItem::within(self.binary@, self.info@.imports[i as int], self.binary@.len() as usize));
            let module = copy_range(self.binary.as_slice(), imp.module_start, imp.module_len);
            let name = copy_range(self.binary.as_slice(), imp.name_start, imp.name_len);
            let ty = match &self.type_hints {
                Some(h) => copy_extern_type(&h.imports[i]),
                None => make_default_extern_type(kind_of_import(imp.desc)),
            };
            r.push(ImportType { module, name, ty });
            i = i + 1;
        }
        r
    }

    /// The module's exports in order, each with its name and its type: the
    /// hint for it if the module has type hints, else the default type for
    /// its kind.
    pub fn exports(&self) -> (r: Vec<ExportType>)
        ensures
            r@.len() == self.spec_info().exports.len(),
            forall|i: int| 0 <= i < r@.len() ==> (#[trigger] r@[i])@ == spec_export_type(
                self.spec_binary(),
                self.spec_info().exports[i],
                hint_at(self.spec_type_hints(), false, i),
            ),
    {
        proof {
            use_type_invariant(self);
        }
        let mut r: Vec<ExportType> = Vec::new();
        let mut i: usize = 0;
        while i < self.info.exports.len()
            invariant
                i <= self.info.exports@.len(),
                r@.len() == i,
                ranges_within(self.binary@, self.info@, self.binary@.len() as usize),
                self.binary@.len() <= usize::MAX,
                match hints_view(self.type_hints) {
                    Some((h, e)) => spec_check_hints(self.info@, h, e) is Ok,
                    None => true,
                },
                forall|k: int| 0 <= k < i ==> (#[trigger] r@[k])@ == spec_export_type(
                    self.binary@,
                    self.info@.exports[k],
                    hint_at(hints_view(self.type_hints), false, k),
                ),
            decreases self.info.exports@.len() - i,
        {
            let exp = self.info.exports[i];
            assert(ExportItem::within(self.binary@, self.info@.exports[i as int], self.binary@.len() as usize));
            let name = copy_range(self.binary.as_slice(), exp.name_start, exp.name_len);
            let ty = match &self.type_hints {
                Some(h) => copy_extern_type(&h.exports[i]),
                None => make_default_extern_type(exp.kind),
            };
            r.push(ExportType { name, ty });
            i = i + 1;
        }
        r
    }

    /// The payloads of the custom sections named `name`, in order.
    pub fn custom_sections(&self, name: &str) -> (r: Vec<Vec<u8>>)
        ensures
            r@.map_values(|v: Vec<u8>| v@) == custom_payloads(self.spec_binary(), self.spec_info().customs, name.spec_bytes()),
    {
        proof {
            use_type_invariant(self);
        }
        let wanted = name.as_bytes();
        let mut r: Vec<Vec<u8>> = Vec::new();
        let mut i: usize = 0;
        while i < self.info.customs.len()
            invariant
                i <= self.info.customs@.len(),
                wanted@ == name.spec_bytes(),
                ranges_within(self.binary@, self.info@, self.binary@.len() as usize),
                self.binary@.len() <= usize::MAX,
                r@.map_values(|v: Vec<u8>| v@) == custom_payloads(
                    self.binary@,
                    self.info@.customs.subrange(0, i as int),
                    wanted@,
                ),
            decreases self.info.customs@.len() - i,
        {
            let c = self.info.customs[i];
            assert(custom_within(self.info@.customs[i as int], self.binary@.len() as usize));
            let ghost prefix = self.info@.customs.subrange(0, i + 1);
            assert(prefix.drop_last() =~= self.info@.customs.subrange(0, i as int));
            if bytes_equal(self.binary.as_slice(), c.name_start, c.name_len, wanted) {
                let payload = copy_range(self.binary.as_slice(), c.payload_start, c.payload_end - c.payload_start);
                let ghost before = r@;
                r.push(payload);
                proof {
                    assert(r@.map_values(|v: Vec<u8>| v@) =~= before.map_values(|v: Vec<u8>| v@).push(payload@));
                }
            }
            i = i + 1;
        }
        proof {
            assert(self.info@.customs.subrange(0, i as int) =~= self.info@.customs);
        }
        r
    }

    /// The module in a form that `deserialize` reads back: its binary,
    /// which compiles to the module's sections again.
    pub fn serialize(&self) -> (r: Result<Vec<u8>, SerializeError>)
        ensures
            r matches Ok(v) && v@ == self.spec_binary(),
            r matches Ok(v) && spec_compile(v@) == Ok::<ModuleSpec, CompileError>(self.spec_info()),
    {
        proof {
            use_type_invariant(self);
        }
        let v = copy_range(self.binary.as_slice(), 0, self.binary.len());
        proof {
            assert(v@ =~= self.binary@);
        }
        Ok(v)
    }

    /// Reads back a serialized module: compiles the bytes.
    pub fn deserialize(bytes: &[u8]) -> (r: Result<Module, DeserializeError>)
        ensures
            match r {
                Ok(m) => spec_compile(bytes@) == Ok::<ModuleSpec, CompileError>(m.spec_info())
                    && m.spec_binary() == bytes@ && m.spec_name() == spec_module_name(bytes@, m.spec_info().customs)
                    && m.spec_type_hints() == Some(spec_module_hints(bytes@, m.spec_info())),
                Err(DeserializeError::Compiler(e)) => spec_compile(bytes@) == Err::<ModuleSpec, CompileError>(e),
            },
    {
        match Module::from_binary(bytes) {
            Ok(m) => Ok(m),
            Err(e) => Err(DeserializeError::Compiler(e)),
        }
    }
}

/// An `ImportType` as a mathematical value.
pub struct ImportTypeView {
    pub module: Seq<u8>,
    pub name: Seq<u8>,
    pub ty: ExternTypeView,
}

impl View for ImportType {
    type V = ImportTypeView;

    open spec fn view(&self) -> ImportTypeView {
        ImportTypeView { module: self.module@, name: self.name@, ty: self.ty@ }
    }
}

/// An `ExportType` as a mathematical value.
pub struct ExportTypeView {
    pub name: Seq<u8>,
    pub ty: ExternTypeView,
}

impl View for ExportType {
    type V = ExportTypeView;

    open spec fn view(&self) -> ExportTypeView {
        ExportTypeView { name: self.name@, ty: self.ty@ }
    }
}

/// The hint for the `i`-th import (or export) if there are hints.
pub open spec fn hint_at(h: Option<(Seq<ExternTypeView>, Seq<ExternTypeView>)>, import: bool, i: int) -> Option<ExternTypeView> {
    match h {
        Some((imps, exps)) => Some(if import { imps[i] } else { exps[i] }),
        None => None,
    }
}

/// An import as the module reports it: the bytes of its names, and the
/// hint for it or else the default type for its kind.
pub open spec fn spec_import_type(binary: Seq<u8>, imp: Import, hint: Option<ExternTypeView>) -> ImportTypeView {
    ImportTypeView {
        module: binary.subrange(imp.module_start as int, imp.module_start + imp.module_len),
        name: binary.subrange(imp.name_start as int, imp.name_start + imp.name_len),
        ty: match hint {
            Some(t) => t,
            None => default_extern_type(import_kind(imp.desc)),
        },
    }
}

/// An export as the module reports it.
pub open spec fn spec_export_type(binary: Seq<u8>, exp: Export, hint: Option<ExternTypeView>) -> ExportTypeView {
    ExportTypeView {
        name: binary.subrange(exp.name_start as int, exp.name_start + exp.name_len),
        ty: match hint {
            Some(t) => t,
            None => default_extern_type(exp.kind),
        },
    }
}

/// The payloads of the custom sections among `customs` whose name is `name`.
pub open spec fn custom_payloads(binary: Seq<u8>, customs: Seq<Custom>, name: Seq<u8>) -> Seq<Seq<u8>>
    decreases customs.len(),
{
    if customs.len() == 0 {
        Seq::empty()
    } else {
        let prev = custom_payloads(binary, customs.drop_last(), name);
        let c = customs.last();
        if binary.subrange(c.name_start as int, c.name_start + c.name_len) == name {
            prev.push(binary.subrange(c.payload_start as int, c.payload_end as int))
        } else {
            prev
        }
    }
}

/// Whether the bytes `start .. start + len` of `s` are `t`.
pub(crate) fn bytes_equal(s: &[u8], start: usize, len: usize, t: &[u8]) -> (r: bool)
    requires
        start + len <= s@.len(),
    ensures
        r == (s@.subrange(start as int, start + len) == t@),
{
    if len != t.len() {
        proof {
            assert(s@.subrange(start as int, start + len).len() != t@.len());
        }
        return false;
    }
    let slen = s.len();
    let mut i: usize = 0;
    while i < len
        invariant
            start + len <= s@.len(),
            slen == s@.len(),
            len == t@.len(),
            i <= len,
            forall|k: int| 0 <= k < i ==> s@[start + k] == t@[k],
        decreases len - i,
    {
        if s[start + i] != t[i] {
            proof {
                assert(s@.subrange(start as int, start + len)[i as int] != t@[i as int]);
            }
            return false;
        }
        i = i + 1;
    }
    proof {
        assert(s@.subrange(start as int, start + len) =~= t@);
    }
    true
}

} // verus!

verus! {

/// The header alone compiles to the module with no sections.
pub proof fn law_header_compiles(s: Seq<u8>)
    requires
        s == seq![0x00u8, 0x61, 0x73, 0x6d, 0x01, 0x00, 0x00, 0x00],
    ensures
        spec_compile(s) == Ok::<ModuleSpec, CompileError>(empty_module()),
{
    law_header_only(s);
    law_empty_module_is_valid(s);
}

} // verus!
