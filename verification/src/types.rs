use vstd::prelude::*;

verus! {

/// The four value types of the WebAssembly MVP.
#[derive(Debug, Clone, Copy, PartialEq, Eq, Structural)]
pub enum ValType {
    I32,
    I64,
    F32,
    F64,
}

/// Size limits of a table or memory: a minimum and an optional maximum.
#[derive(Debug, Clone, Copy, PartialEq, Eq, Structural)]
pub struct Limits {
    pub min: u32,
    pub max: Option<u32>,
}

/// A table of function references with its limits.
#[derive(Debug, Clone, Copy, PartialEq, Eq, Structural)]
pub struct TableType {
    pub limits: Limits,
}

/// The type of a global: its value type and whether it may change.
#[derive(Debug, Clone, Copy, PartialEq, Eq, Structural)]
pub struct GlobalType {
    pub content: ValType,
    pub mutable: bool,
}

/// A function type. Value types take one byte each, so the parameter and
/// result types are the bytes `params_start .. params_end`
/// and `results_start .. results_end` of the module's binary.
#[derive(Debug, Clone, Copy, PartialEq, Eq, Structural)]
pub struct FuncType {
    pub params_start: usize,
    pub params_end: usize,
    pub results_start: usize,
    pub results_end: usize,
}

/// What an import brings in.
#[derive(Debug, Clone, Copy, PartialEq, Eq, Structural)]
pub enum ImportDesc {
    Function(u32),
    Table(TableType),
    Memory(Limits),
    Global(GlobalType),
}

/// An import; its module and field names are byte ranges of the binary.
#[derive(Debug, Clone, Copy, PartialEq, Eq, Structural)]
pub struct Import {
    pub module_start: usize,
    pub module_len: usize,
    pub name_start: usize,
    pub name_len: usize,
    pub desc: ImportDesc,
}

/// The four kinds of external values.
#[derive(Debug, Clone, Copy, PartialEq, Eq, Structural)]
pub enum ExternKind {
    Function,
    Table,
    Memory,
    Global,
}

/// An export; its name is a byte range of the binary.
#[derive(Debug, Clone, Copy, PartialEq, Eq, Structural)]
pub struct Export {
    pub name_start: usize,
    pub name_len: usize,
    pub kind: ExternKind,
    pub index: u32,
}

/// A constant initializer. Float constants are kept as their bit patterns.
#[derive(Debug, Clone, Copy, PartialEq, Eq, Structural)]
pub enum ConstExpr {
    I32(i32),
    I64(i64),
    F32(u32),
    F64(u64),
    GlobalGet(u32),
}

/// A global definition.
#[derive(Debug, Clone, Copy, PartialEq, Eq, Structural)]
pub struct Global {
    pub ty: GlobalType,
    pub init: ConstExpr,
}

/// An element segment: `funcs_count` function indices, each a LEB128 `u32`,
/// start at byte `funcs_start` of the binary.
#[derive(Debug, Clone, Copy, PartialEq, Eq, Structural)]
pub struct Elem {
    pub table: u32,
    pub offset: ConstExpr,
    pub funcs_start: usize,
    pub funcs_count: u32,
}

/// A function body: the number of locals it declares, where its local
/// declarations start, and the byte range of its instructions (the last of
/// which is the final `end`).
#[derive(Debug, Clone, Copy, PartialEq, Eq, Structural)]
pub struct Code {
    pub locals: u64,
    pub locals_start: usize,
    pub body_start: usize,
    pub body_end: usize,
}

/// A data segment; its bytes are a range of the binary.
#[derive(Debug, Clone, Copy, PartialEq, Eq, Structural)]
pub struct Data {
    pub memory: u32,
    pub offset: ConstExpr,
    pub bytes_start: usize,
    pub bytes_len: usize,
}

/// A custom section: its name and payload are byte ranges of the binary.
#[derive(Debug, Clone, Copy, PartialEq, Eq, Structural)]
pub struct Custom {
    pub name_start: usize,
    pub name_len: usize,
    pub payload_start: usize,
    pub payload_end: usize,
}

/// What decoding a module yields, as a mathematical value.
pub struct ModuleSpec {
    pub types: Seq<FuncType>,
    pub imports: Seq<Import>,
    pub funcs: Seq<u32>,
    pub tables: Seq<TableType>,
    pub memories: Seq<Limits>,
    pub globals: Seq<Global>,
    pub exports: Seq<Export>,
    pub start: Option<u32>,
    pub elems: Seq<Elem>,
    pub codes: Seq<Code>,
    pub datas: Seq<Data>,
    pub customs: Seq<Custom>,
}

/// The sections of a decoded module. Every range it holds is a range of
/// the binary it was decoded from.
#[derive(Debug)]
pub struct ModuleInfo {
    pub types: Vec<FuncType>,
    pub imports: Vec<Import>,
    pub funcs: Vec<u32>,
    pub tables: Vec<TableType>,
    pub memories: Vec<Limits>,
    pub globals: Vec<Global>,
    pub exports: Vec<Export>,
    pub start: Option<u32>,
    pub elems: Vec<Elem>,
    pub codes: Vec<Code>,
    pub datas: Vec<Data>,
    pub customs: Vec<Custom>,
}

impl View for ModuleInfo {
    type V = ModuleSpec;

    open spec fn view(&self) -> ModuleSpec {
        ModuleSpec {
            types: self.types@,
            imports: self.imports@,
            funcs: self.funcs@,
            tables: self.tables@,
            memories: self.memories@,
            globals: self.globals@,
            exports: self.exports@,
            start: self.start,
            elems: self.elems@,
            codes: self.codes@,
            datas: self.datas@,
            customs: self.customs@,
        }
    }
}

/// The module with no sections.
pub open spec fn empty_module() -> ModuleSpec {
    ModuleSpec {
        types: Seq::empty(),
        imports: Seq::empty(),
        funcs: Seq::empty(),
        tables: Seq::empty(),
        memories: Seq::empty(),
        globals: Seq::empty(),
        exports: Seq::empty(),
        start: None,
        elems: Seq::empty(),
        codes: Seq::empty(),
        datas: Seq::empty(),
        customs: Seq::empty(),
    }
}

} // verus!
