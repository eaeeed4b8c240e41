//! The session: what one run of a program shares with its host.
//!
//! The library does no input or output and no floating-point arithmetic.
//! Where a program needs one of these, the evaluation takes the next of the
//! answers that the host has supplied; when they are used up it stops with
//! the error kind `Suspended` and leaves the request in `pending`. The host
//! performs the request, adds the answer and runs the program again from the
//! start: with the same answers the evaluation takes the same path, so it
//! comes back to the request and goes on from there. What the program has
//! printed is collected in `output`.

use crate::ast::{nodes_view, BinaryOp, Expr, ExprView, Float, LibraryHandle, Native, Span, SpannedExpr, SpannedView};
use crate::values::{error, EvalError, EvalErrorKind, EvalErrorView};
use vstd::prelude::*;

verus! {

/// The operations on floating-point numbers that the language itself has.
#[derive(Clone, Copy, Debug, PartialEq, Eq, Structural)]
pub enum FloatOp {
    /// The value of a literal; the operand is the literal's text.
    Parse,
    /// Unary minus.
    Negate,
    /// A binary operator, one of whose operands is a floating-point number.
    Binary(BinaryOp),
}

/// A value as it crosses the boundary to native code.
#[derive(Debug)]
pub enum FFIArgument {
    Null,
    String(String),
    Integer(i32),
    Float(Float),
    Boolean(bool),
}

/// Mirror of `FFIArgument`.
pub enum FFIArgumentView {
    Null,
    String(Seq<char>),
    Integer(i32),
    Float(Float),
    Boolean(bool),
}

impl View for FFIArgument {
    type V = FFIArgumentView;

    open spec fn view(&self) -> FFIArgumentView {
        match self {
            FFIArgument::Null => FFIArgumentView::Null,
            FFIArgument::String(s) => FFIArgumentView::String(s@),
            FFIArgument::Integer(n) => FFIArgumentView::Integer(*n),
            FFIArgument::Float(f) => FFIArgumentView::Float(*f),
            FFIArgument::Boolean(b) => FFIArgumentView::Boolean(*b),
        }
    }
}

impl FFIArgument {
    /// A copy.
    pub fn copy(&self) -> (r: FFIArgument)
        ensures
            r@ == self@,
    {
        match self {
            FFIArgument::Null => FFIArgument::Null,
            FFIArgument::String(s) => FFIArgument::String(s.clone()),
            FFIArgument::Integer(n) => FFIArgument::Integer(*n),
            FFIArgument::Float(f) => FFIArgument::Float(*f),
            FFIArgument::Boolean(b) => FFIArgument::Boolean(*b),
        }
    }
}

impl Clone for FFIArgument {
    fn clone(&self) -> (r: Self)
        ensures
            r@ == self@,
    {
        self.copy()
    }
}

/// The mirror of a list of marshalled arguments.
pub open spec fn arguments_view(v: Seq<FFIArgument>) -> Seq<FFIArgumentView> {
    Seq::new(v.len(), |i: int| v[i]@)
}

/// What the evaluation asks of its host.
#[derive(Debug)]
pub enum Request {
    /// The result of a native function on the evaluated arguments.
    Native { func: Native, args: Vec<SpannedExpr> },
    /// The result of an operation on floating-point numbers.
    Float { op: FloatOp, left: Expr, right: Expr },
    /// The text of a file.
    ReadFile { path: String },
    /// Whether a file exists.
    FileExists { path: String },
    /// The result of a function of a loaded native library.
    Ffi { library: LibraryHandle, symbol: String, args: Vec<FFIArgument> },
}

/// Mirror of `Request`.
pub enum RequestView {
    Native { func: Native, args: Seq<SpannedView> },
    Float { op: FloatOp, left: ExprView, right: ExprView },
    ReadFile { path: Seq<char> },
    FileExists { path: Seq<char> },
    Ffi { library: LibraryHandle, symbol: Seq<char>, args: Seq<FFIArgumentView> },
}

impl View for Request {
    type V = RequestView;

    open spec fn view(&self) -> RequestView {
        match self {
            Request::Native { func, args } => RequestView::Native { func: *func, args: nodes_view(args@) },
            Request::Float { op, left, right } => RequestView::Float {
                op: *op,
                left: left@,
                right: right@,
            },
            Request::ReadFile { path } => RequestView::ReadFile { path: path@ },
            Request::FileExists { path } => RequestView::FileExists { path: path@ },
            Request::Ffi { library, symbol, args } => RequestView::Ffi {
                library: *library,
                symbol: symbol@,
                args: arguments_view(args@),
            },
        }
    }
}

/// What the host answers: a value, or the message of a failure.
#[derive(Debug)]
pub enum Answer {
    Value(Expr),
    Failure(String),
}

/// Mirror of `Answer`.
pub enum AnswerView {
    Value(ExprView),
    Failure(Seq<char>),
}

impl View for Answer {
    type V = AnswerView;

    open spec fn view(&self) -> AnswerView {
        match self {
            Answer::Value(v) => AnswerView::Value(v@),
            Answer::Failure(s) => AnswerView::Failure(s@),
        }
    }
}

impl Answer {
    /// A deep copy.
    pub fn copy(&self) -> (r: Answer)
        ensures
            r@ == self@,
    {
        match self {
            Answer::Value(v) => Answer::Value(v.copy()),
            Answer::Failure(s) => Answer::Failure(s.clone()),
        }
    }
}

impl Clone for Answer {
    fn clone(&self) -> (r: Self)
        ensures
            r@ == self@,
    {
        self.copy()
    }
}

/// The mirror of a list of answers.
pub open spec fn answers_view(v: Seq<Answer>) -> Seq<AnswerView> {
    Seq::new(v.len(), |i: int| v[i]@)
}

/// A piece of what a program has printed.
#[derive(Debug)]
pub enum Piece {
    /// A text, as it is to be written.
    Text(String),
    /// The arguments of a `print` whose text only the host can write (one of
    /// them is a floating-point number, say); a line feed follows them.
    Values(Vec<SpannedExpr>),
}

/// Mirror of `Piece`.
pub enum PieceView {
    Text(Seq<char>),
    Values(Seq<SpannedView>),
}

impl View for Piece {
    type V = PieceView;

    open spec fn view(&self) -> PieceView {
        match self {
            Piece::Text(t) => PieceView::Text(t@),
            Piece::Values(v) => PieceView::Values(nodes_view(v@)),
        }
    }
}

/// The mirror of a list of pieces.
pub open spec fn pieces_view(v: Seq<Piece>) -> Seq<PieceView> {
    Seq::new(v.len(), |i: int| v[i]@)
}

/// The state that a run shares with its host.
#[derive(Debug)]
pub struct Session {
    /// What the program has printed, piece by piece.
    pub output: Vec<Piece>,
    /// The host's answers, in the order of the requests.
    pub answers: Vec<Answer>,
    /// How many of the answers the evaluation has taken.
    pub cursor: usize,
    /// The request that the evaluation stopped at, if it is suspended.
    pub pending: Option<Request>,
    /// How many more iterations `loop` statements may make in all.
    pub steps: u64,
    /// Whether the packages that reach outside the program are withheld.
    pub sandbox: bool,
    /// The directory of the invoked script, against which imports resolve;
    /// empty, or ending in `/`.
    pub directory: String,
    /// The name of the operating system, as the package `os` reports it.
    pub platform: String,
}

/// Mirror of `Session`.
pub struct SessionView {
    pub output: Seq<PieceView>,
    pub answers: Seq<AnswerView>,
    pub cursor: int,
    pub pending: Option<RequestView>,
    pub steps: int,
    pub sandbox: bool,
    pub directory: Seq<char>,
    pub platform: Seq<char>,
}

impl View for Session {
    type V = SessionView;

    open spec fn view(&self) -> SessionView {
        SessionView {
            output: pieces_view(self.output@),
            answers: answers_view(self.answers@),
            cursor: self.cursor as int,
            pending: match self.pending {
                Some(r) => Some(r@),
                None => None,
            },
            steps: self.steps as int,
            sandbox: self.sandbox,
            directory: self.directory@,
            platform: self.platform@,
        }
    }
}

/// The session after printing `piece`.
pub open spec fn printed(s: SessionView, piece: PieceView) -> SessionView {
    SessionView { output: s.output.push(piece), ..s }
}

/// The outcome of asking the host: the next answer, or suspension with the
/// request left pending.
pub open spec fn asked(s: SessionView, request: RequestView, span: Span) -> (
    Result<AnswerView, EvalErrorView>,
    SessionView,
) {
    if 0 <= s.cursor < s.answers.len() {
        (Ok(s.answers[s.cursor]), SessionView { cursor: s.cursor + 1, ..s })
    } else {
        (
            Err(error(EvalErrorKind::Suspended, ""@, span)),
            SessionView { pending: Some(request), ..s },
        )
    }
}

impl Session {
    /// A session with no answers yet, for a script in `directory` on the
    /// platform called `platform`.
    pub fn new(directory: &str, platform: &str, sandbox: bool, steps: u64) -> (r: Session)
        ensures
            r@ == (SessionView {
                output: Seq::empty(),
                answers: Seq::empty(),
                cursor: 0,
                pending: None,
                steps: steps as int,
                sandbox,
                directory: directory@,
                platform: platform@,
            }),
    {
        let r = Session {
            output: Vec::new(),
            answers: Vec::new(),
            cursor: 0,
            pending: None,
            steps,
            sandbox,
            directory: String::from_str(directory),
            platform: String::from_str(platform),
        };
        assert(r@.output =~= Seq::empty());
        assert(r@.answers =~= Seq::empty());
        r
    }

    /// Appends `piece` to what the program has printed.
    pub fn print(&mut self, piece: Piece)
        ensures
            final(self)@ == printed(old(self)@, piece@),
            final(self).steps == old(self).steps,
    {
        let ghost before = self@.output;
        self.output.push(piece);
        assert(self@.output =~= before.push(piece@));
    }

    /// Takes the host's next answer. Without one, leaves `request` pending
    /// and fails with the error kind `Suspended`.
    pub fn ask(&mut self, request: Request, span: Span) -> (r: Result<Answer, EvalError>)
        ensures
            match r {
                Ok(a) => asked(old(self)@, request@, span) == (
                    Ok::<AnswerView, EvalErrorView>(a@),
                    final(self)@,
                ),
                Err(e) => asked(old(self)@, request@, span) == (
                    Err::<AnswerView, EvalErrorView>(e@),
                    final(self)@,
                ),
            },
            final(self).steps == old(self).steps,
    {
        if self.cursor < self.answers.len() {
            let a = self.answers[self.cursor].copy();
            self.cursor = self.cursor + 1;
            Ok(a)
        } else {
            self.pending = Some(request);
            Err(EvalError::new(EvalErrorKind::Suspended, "", span))
        }
    }

    /// Adds an answer of the host and makes the session ready for the next
    /// run: no answer taken, nothing printed, no request pending.
    pub fn answer(&mut self, answer: Answer, steps: u64)
        ensures
            final(self)@ == (SessionView {
                output: Seq::empty(),
                answers: old(self)@.answers.push(answer@),
                cursor: 0,
                pending: None,
                steps: steps as int,
                ..old(self)@
            }),
    {
        let ghost before = self@.answers;
        self.answers.push(answer);
        self.cursor = 0;
        self.pending = None;
        self.output = Vec::new();
        self.steps = steps;
        assert(self@.answers =~= before.push(answer@));
        assert(self@.output =~= Seq::empty());
    }
}

} // verus!
