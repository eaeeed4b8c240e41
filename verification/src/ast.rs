//! The syntax tree. One type, `Expr`, serves both as parsed program text and
//! as run-time value; every node carries the span of the source it came from.
//!
//! Each executable type has a mathematical mirror (`ExprView` and friends)
//! over `Seq`, in which the contracts of the whole crate are stated.

use vstd::prelude::*;

verus! {

/// A half-open range of byte offsets into the source text.
#[derive(Clone, Copy, Debug, PartialEq, Eq, Structural)]
pub struct Span {
    pub start: usize,
    pub end: usize,
}

impl Span {
    /// The span from `start` up to, not including, `end`.
    pub fn new(start: usize, end: usize) -> (r: Span)
        ensures
            r == (Span { start, end }),
    {
        Span { start, end }
    }

    /// The empty span at offset zero, used for values that have no source.
    pub fn empty() -> (r: Span)
        ensures
            r == (Span { start: 0, end: 0 }),
    {
        Span { start: 0, end: 0 }
    }
}

impl Default for Span {
    fn default() -> (r: Span)
        ensures
            r == (Span { start: 0, end: 0 }),
    {
        Span { start: 0, end: 0 }
    }
}

/// A double-precision number, held as its IEEE-754 bit pattern. The library
/// carries such numbers around but never computes with them itself.
#[derive(Clone, Copy, Debug, PartialEq, Eq, Structural)]
pub struct Float {
    pub bits: u64,
}

/// The binary operators of the language.
#[derive(Clone, Copy, Debug, PartialEq, Eq, Structural)]
pub enum BinaryOp {
    Add,
    Sub,
    Equal,
    NotEqual,
    LessThan,
    LessThanOrEqual,
    GreaterThan,
    GreaterThanOrEqual,
}

/// The native functions that the interpreter knows.
#[derive(Clone, Copy, Debug, PartialEq, Eq, Structural)]
pub enum Native {
    Print,
    Input,
    Exit,
    Str,
    Int,
    Float,
    Bool,
    ArrayLen,
    ArrayClear,
    ArrayPush,
    ArrayPop,
    ObjectGet,
    ObjectSet,
    ObjectStringify,
    MathMul,
    MathDiv,
    MathAbs,
    MathPow,
    Sha256,
    Sha512,
    Blake3,
    BcryptHash,
    BcryptVerify,
    Argon2Hash,
    Argon2Verify,
    ScryptHash,
    ScryptVerify,
    Md5,
    EncodeBase64,
    DecodeBase64,
    EncodeBase16,
    DecodeBase16,
    NowUnix,
    NowUtc,
    NowLocal,
    ToIso8601,
    ToRfc2822,
    ToLocalDateTime,
    ToUtcDateTime,
    OsExec,
    HttpGet,
    HttpPost,
    HttpPut,
    HttpPatch,
    HttpDelete,
    FfiLoad,
    JsonParse,
    JsonStringify,
    UuidV4,
    /// A function that the host has registered under a number of its own.
    Host(u64),
}

/// A handle to a dynamically loaded native library. The host keeps the
/// library itself; scripts only pass the handle around.
#[derive(Clone, Copy, Debug, PartialEq, Eq, Structural)]
pub struct LibraryHandle {
    pub id: u64,
}

/// A node together with the span of source text that produced it.
#[derive(Debug)]
pub struct SpannedExpr {
    pub node: Expr,
    pub span: Span,
}

/// A named value: one entry of an environment, an object or a module.
#[derive(Debug)]
pub struct Binding {
    pub name: String,
    pub value: Expr,
}

/// A syntax node or a value.
#[derive(Debug)]
#[allow(inconsistent_fields)]
pub enum Expr {
    Int(i64),
    /// A floating-point value.
    Float(Float),
    /// A floating-point literal as written in the source.
    FloatLiteral(String),
    String(String),
    Bool(bool),
    Null,
    Identifier(String),
    Neg(Box<SpannedExpr>),
    Binary { op: BinaryOp, left: Box<SpannedExpr>, right: Box<SpannedExpr> },
    Let { name: String, value: Box<SpannedExpr> },
    Call { callee: Box<SpannedExpr>, args: Vec<SpannedExpr> },
    PropertyAccess { object: Box<SpannedExpr>, property: String },
    IndexAccess { object: Box<SpannedExpr>, index: Box<SpannedExpr> },
    Block(Vec<SpannedExpr>),
    Array(Vec<SpannedExpr>),
    Object { properties: Vec<Binding> },
    Function { name: String, args: Vec<String>, body: Box<SpannedExpr> },
    InternalFunction { name: String, args: Vec<String>, func: Native },
    Module { symbols: Vec<Binding> },
    FFILibrary(LibraryHandle),
    If { condition: Box<SpannedExpr>, then_branch: Box<SpannedExpr>, else_branch: Option<Box<SpannedExpr>> },
    InfiniteLoop { body: Box<SpannedExpr> },
    ForLoop { iterator_name: String, iterator_range: Box<SpannedExpr>, body: Box<SpannedExpr> },
    Range { start: Box<SpannedExpr>, end: Box<SpannedExpr>, inclusive: bool },
    Import { name: String, import_as: Option<String> },
    Return(Box<SpannedExpr>),
    Break,
    Continue,
}

/// Mirror of `SpannedExpr`.
pub struct SpannedView {
    pub node: ExprView,
    pub span: Span,
}

/// Mirror of `Binding`.
pub struct BindingView {
    pub name: Seq<char>,
    pub value: ExprView,
}

/// Mirror of `Expr`.
#[allow(inconsistent_fields)]
pub enum ExprView {
    Int(i64),
    Float(Float),
    FloatLiteral(Seq<char>),
    String(Seq<char>),
    Bool(bool),
    Null,
    Identifier(Seq<char>),
    Neg(Box<SpannedView>),
    Binary { op: BinaryOp, left: Box<SpannedView>, right: Box<SpannedView> },
    Let { name: Seq<char>, value: Box<SpannedView> },
    Call { callee: Box<SpannedView>, args: Seq<SpannedView> },
    PropertyAccess { object: Box<SpannedView>, property: Seq<char> },
    IndexAccess { object: Box<SpannedView>, index: Box<SpannedView> },
    Block(Seq<SpannedView>),
    Array(Seq<SpannedView>),
    Object { properties: Seq<BindingView> },
    Function { name: Seq<char>, args: Seq<Seq<char>>, body: Box<SpannedView> },
    InternalFunction { name: Seq<char>, args: Seq<Seq<char>>, func: Native },
    Module { symbols: Seq<BindingView> },
    FFILibrary(LibraryHandle),
    If { condition: Box<SpannedView>, then_branch: Box<SpannedView>, else_branch: Option<Box<SpannedView>> },
    InfiniteLoop { body: Box<SpannedView> },
    ForLoop { iterator_name: Seq<char>, iterator_range: Box<SpannedView>, body: Box<SpannedView> },
    Range { start: Box<SpannedView>, end: Box<SpannedView>, inclusive: bool },
    Import { name: Seq<char>, import_as: Option<Seq<char>> },
    Return(Box<SpannedView>),
    Break,
    Continue,
}

/// The mirror of a list of nodes.
pub open spec fn nodes_view(v: Seq<SpannedExpr>) -> Seq<SpannedView>
    decreases v,
{
    Seq::new(
        v.len(),
        |i: int|
            if 0 <= i < v.len() {
                spanned_view(v[i])
            } else {
                arbitrary()
            },
    )
}

/// The mirror of a list of bindings.
pub open spec fn bindings_view(v: Seq<Binding>) -> Seq<BindingView>
    decreases v,
{
    Seq::new(
        v.len(),
        |i: int|
            if 0 <= i < v.len() {
                binding_view(v[i])
            } else {
                arbitrary()
            },
    )
}

/// The mirror of a list of names.
pub open spec fn names_view(v: Seq<String>) -> Seq<Seq<char>> {
    Seq::new(v.len(), |i: int| v[i]@)
}

/// The mirror of a node with its span.
pub open spec fn spanned_view(e: SpannedExpr) -> SpannedView
    decreases e,
{
    SpannedView { node: expr_view(e.node), span: e.span }
}

/// The mirror of a binding.
pub open spec fn binding_view(b: Binding) -> BindingView
    decreases b,
{
    BindingView { name: b.name@, value: expr_view(b.value) }
}

/// The mirror of a node.
pub open spec fn expr_view(e: Expr) -> ExprView
    decreases e,
{
    match e {
        Expr::Int(n) => ExprView::Int(n),
        Expr::Float(f) => ExprView::Float(f),
        Expr::FloatLiteral(s) => ExprView::FloatLiteral(s@),
        Expr::String(s) => ExprView::String(s@),
        Expr::Bool(b) => ExprView::Bool(b),
        Expr::Null => ExprView::Null,
        Expr::Identifier(s) => ExprView::Identifier(s@),
        Expr::Neg(e) => ExprView::Neg(Box::new(spanned_view(*e))),
        Expr::Binary { op, left, right } => ExprView::Binary {
            op: op,
            left: Box::new(spanned_view(*left)),
            right: Box::new(spanned_view(*right)),
        },
        Expr::Let { name, value } => ExprView::Let { name: name@, value: Box::new(spanned_view(*value)) },
        Expr::Call { callee, args } => ExprView::Call {
            callee: Box::new(spanned_view(*callee)),
            args: nodes_view(args@),
        },
        Expr::PropertyAccess { object, property } => ExprView::PropertyAccess {
            object: Box::new(spanned_view(*object)),
            property: property@,
        },
        Expr::IndexAccess { object, index } => ExprView::IndexAccess {
            object: Box::new(spanned_view(*object)),
            index: Box::new(spanned_view(*index)),
        },
        Expr::Block(stmts) => ExprView::Block(nodes_view(stmts@)),
        Expr::Array(items) => ExprView::Array(nodes_view(items@)),
        Expr::Object { properties } => ExprView::Object { properties: bindings_view(properties@) },
        Expr::Function { name, args, body } => ExprView::Function {
            name: name@,
            args: names_view(args@),
            body: Box::new(spanned_view(*body)),
        },
        Expr::InternalFunction { name, args, func } => ExprView::InternalFunction {
            name: name@,
            args: names_view(args@),
            func: func,
        },
        Expr::Module { symbols } => ExprView::Module { symbols: bindings_view(symbols@) },
        Expr::FFILibrary(h) => ExprView::FFILibrary(h),
        Expr::If { condition, then_branch, else_branch } => ExprView::If {
            condition: Box::new(spanned_view(*condition)),
            then_branch: Box::new(spanned_view(*then_branch)),
            else_branch: match else_branch {
                Some(e) => Some(Box::new(spanned_view(*e))),
                None => None,
            },
        },
        Expr::InfiniteLoop { body } => ExprView::InfiniteLoop { body: Box::new(spanned_view(*body)) },
        Expr::ForLoop { iterator_name, iterator_range, body } => ExprView::ForLoop {
            iterator_name: iterator_name@,
            iterator_range: Box::new(spanned_view(*iterator_range)),
            body: Box::new(spanned_view(*body)),
        },
        Expr::Range { start, end, inclusive } => ExprView::Range {
            start: Box::new(spanned_view(*start)),
            end: Box::new(spanned_view(*end)),
            inclusive: inclusive,
        },
        Expr::Import { name, import_as } => ExprView::Import {
            name: name@,
            import_as: match import_as {
                Some(s) => Some(s@),
                None => None,
            },
        },
        Expr::Return(e) => ExprView::Return(Box::new(spanned_view(*e))),
        Expr::Break => ExprView::Break,
        Expr::Continue => ExprView::Continue,
    }
}

impl View for SpannedExpr {
    type V = SpannedView;

    open spec fn view(&self) -> SpannedView {
        spanned_view(*self)
    }
}

impl View for Binding {
    type V = BindingView;

    open spec fn view(&self) -> BindingView {
        binding_view(*self)
    }
}

impl View for Expr {
    type V = ExprView;

    open spec fn view(&self) -> ExprView {
        expr_view(*self)
    }
}

/// A copy of a list of names.
pub fn copy_names(v: &Vec<String>) -> (r: Vec<String>)
    ensures
        names_view(r@) == names_view(v@),
{
    let mut out: Vec<String> = Vec::new();
    let mut i: usize = 0;
    while i < v.len()
        invariant
            i <= v.len(),
            out@.len() == i,
            forall|j: int| 0 <= j < i ==> (#[trigger] out@[j])@ == v@[j]@,
        decreases v.len() - i,
    {
        out.push(v[i].clone());
        i += 1;
    }
    assert(names_view(out@) =~= names_view(v@));
    out
}

impl Expr {
    /// A deep copy.
    #[verifier::loop_isolation(false)]
    pub fn copy(&self) -> (r: Expr)
        ensures
            r@ == self@,
        decreases self,
    {
        match self {
            Expr::Int(n) => Expr::Int(*n),
            Expr::Float(f) => Expr::Float(*f),
            Expr::FloatLiteral(s) => Expr::FloatLiteral(s.clone()),
            Expr::String(s) => Expr::String(s.clone()),
            Expr::Bool(b) => Expr::Bool(*b),
            Expr::Null => Expr::Null,
            Expr::Identifier(s) => Expr::Identifier(s.clone()),
            Expr::Neg(e) => Expr::Neg(Box::new(e.copy())),
            Expr::Binary { op, left, right } => Expr::Binary {
                op: *op,
                left: Box::new(left.copy()),
                right: Box::new(right.copy()),
            },
            Expr::Let { name, value } => Expr::Let { name: name.clone(), value: Box::new(value.copy()) },
            Expr::Call { callee, args } => Expr::Call {
                callee: Box::new(callee.copy()),
                args: copy_nodes_of(self, args),
            },
            Expr::PropertyAccess { object, property } => Expr::PropertyAccess {
                object: Box::new(object.copy()),
                property: property.clone(),
            },
            Expr::IndexAccess { object, index } => Expr::IndexAccess {
                object: Box::new(object.copy()),
                index: Box::new(index.copy()),
            },
            Expr::Block(stmts) => Expr::Block(copy_nodes_of(self, stmts)),
            Expr::Array(items) => Expr::Array(copy_nodes_of(self, items)),
            Expr::Object { properties } => Expr::Object { properties: copy_bindings_of(self, properties) },
            Expr::Function { name, args, body } => Expr::Function {
                name: name.clone(),
                args: copy_names(args),
                body: Box::new(body.copy()),
            },
            Expr::InternalFunction { name, args, func } => Expr::InternalFunction {
                name: name.clone(),
                args: copy_names(args),
                func: *func,
            },
            Expr::Module { symbols } => Expr::Module { symbols: copy_bindings_of(self, symbols) },
            Expr::FFILibrary(h) => Expr::FFILibrary(*h),
            Expr::If { condition, then_branch, else_branch } => Expr::If {
                condition: Box::new(condition.copy()),
                then_branch: Box::new(then_branch.copy()),
                else_branch: match else_branch {
                    Some(e) => Some(Box::new(e.copy())),
                    None => None,
                },
            },
            Expr::InfiniteLoop { body } => Expr::InfiniteLoop { body: Box::new(body.copy()) },
            Expr::ForLoop { iterator_name, iterator_range, body } => Expr::ForLoop {
                iterator_name: iterator_name.clone(),
                iterator_range: Box::new(iterator_range.copy()),
                body: Box::new(body.copy()),
            },
            Expr::Range { start, end, inclusive } => Expr::Range {
                start: Box::new(start.copy()),
                end: Box::new(end.copy()),
                inclusive: *inclusive,
            },
            Expr::Import { name, import_as } => Expr::Import {
                name: name.clone(),
                import_as: match import_as {
                    Some(s) => Some(s.clone()),
                    None => None,
                },
            },
            Expr::Return(e) => Expr::Return(Box::new(e.copy())),
            Expr::Break => Expr::Break,
            Expr::Continue => Expr::Continue,
        }
    }
}

/// A deep copy of the nodes `v`, which are part of `parent`.
#[verifier::loop_isolation(false)]
fn copy_nodes_of(parent: &Expr, v: &Vec<SpannedExpr>) -> (r: Vec<SpannedExpr>)
    requires
        decreases_to!(parent => v),
    ensures
        nodes_view(r@) == nodes_view(v@),
    decreases parent, 0nat,
{
    let mut out: Vec<SpannedExpr> = Vec::new();
    let mut i: usize = 0;
    while i < v.len()
        invariant
            i <= v.len(),
            out@.len() == i,
            forall|j: int| 0 <= j < i ==> (#[trigger] out@[j])@ == v@[j]@,
        decreases v.len() - i,
    {
        let item = &v[i];
        out.push(SpannedExpr { node: item.node.copy(), span: item.span });
        i += 1;
    }
    assert(nodes_view(out@) =~= nodes_view(v@));
    out
}

/// A deep copy of the bindings `v`, which are part of `parent`.
#[verifier::loop_isolation(false)]
fn copy_bindings_of(parent: &Expr, v: &Vec<Binding>) -> (r: Vec<Binding>)
    requires
        decreases_to!(parent => v),
    ensures
        bindings_view(r@) == bindings_view(v@),
    decreases parent, 0nat,
{
    let mut out: Vec<Binding> = Vec::new();
    let mut i: usize = 0;
    while i < v.len()
        invariant
            i <= v.len(),
            out@.len() == i,
            forall|j: int| 0 <= j < i ==> (#[trigger] out@[j])@ == v@[j]@,
        decreases v.len() - i,
    {
        let item = &v[i];
        out.push(Binding { name: item.name.clone(), value: item.value.copy() });
        i += 1;
    }
    assert(bindings_view(out@) =~= bindings_view(v@));
    out
}

impl SpannedExpr {
    /// The node `node` with the span `span`.
    pub fn new(node: Expr, span: Span) -> (r: SpannedExpr)
        ensures
            r.node == node,
            r.span == span,
    {
        SpannedExpr { node, span }
    }

    /// A deep copy.
    pub fn copy(&self) -> (r: SpannedExpr)
        ensures
            r@ == self@,
        decreases self,
    {
        SpannedExpr { node: self.node.copy(), span: self.span }
    }
}

impl Binding {
    /// A deep copy.
    pub fn copy(&self) -> (r: Binding)
        ensures
            r@ == self@,
    {
        Binding { name: self.name.clone(), value: self.value.copy() }
    }
}

impl Clone for Expr {
    fn clone(&self) -> (r: Self)
        ensures
            r@ == self@,
    {
        self.copy()
    }
}

impl Clone for SpannedExpr {
    fn clone(&self) -> (r: Self)
        ensures
            r@ == self@,
    {
        self.copy()
    }
}

impl Clone for Binding {
    fn clone(&self) -> (r: Self)
        ensures
            r@ == self@,
    {
        self.copy()
    }
}

/// Deep copy of a list of nodes.
pub fn copy_nodes(v: &Vec<SpannedExpr>) -> (r: Vec<SpannedExpr>)
    ensures
        nodes_view(r@) == nodes_view(v@),
{
    let mut out: Vec<SpannedExpr> = Vec::new();
    let mut i: usize = 0;
    while i < v.len()
        invariant
            i <= v.len(),
            out@.len() == i,
            forall|j: int| 0 <= j < i ==> (#[trigger] out@[j])@ == v@[j]@,
        decreases v.len() - i,
    {
        out.push(v[i].copy());
        i += 1;
    }
    assert(nodes_view(out@) =~= nodes_view(v@));
    out
}

/// Deep copy of a list of bindings.
pub fn copy_bindings(v: &Vec<Binding>) -> (r: Vec<Binding>)
    ensures
        bindings_view(r@) == bindings_view(v@),
{
    let mut out: Vec<Binding> = Vec::new();
    let mut i: usize = 0;
    while i < v.len()
        invariant
            i <= v.len(),
            out@.len() == i,
            forall|j: int| 0 <= j < i ==> (#[trigger] out@[j])@ == v@[j]@,
        decreases v.len() - i,
    {
        out.push(v[i].copy());
        i += 1;
    }
    assert(bindings_view(out@) =~= bindings_view(v@));
    out
}

/// What a native function hands back: its result and, for a method that
/// changes its receiver, the receiver's new value.
#[derive(Debug)]
pub struct InternalFunctionResponse {
    pub return_value: Expr,
    pub replace_self: Option<Expr>,
}

/// Mirror of `InternalFunctionResponse`.
pub struct ResponseView {
    pub return_value: ExprView,
    pub replace_self: Option<ExprView>,
}

impl View for InternalFunctionResponse {
    type V = ResponseView;

    open spec fn view(&self) -> ResponseView {
        ResponseView {
            return_value: self.return_value@,
            replace_self: match self.replace_self {
                Some(e) => Some(e@),
                None => None,
            },
        }
    }
}

} // verus!
