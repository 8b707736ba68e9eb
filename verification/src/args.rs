//! The argument sequence: an ordered, append-only list of command-line tokens.

use vstd::prelude::*;

verus! {

/// A value that can stand as one command-line token.
pub trait Token {
    /// The characters of the token.
    spec fn text(&self) -> Seq<char>;

    /// The token as an owned string.
    fn to_token(&self) -> (s: String)
        ensures
            s@ == self.text(),
    ;
}

impl<'a> Token for &'a str {
    open spec fn text(&self) -> Seq<char> {
        self@
    }

    fn to_token(&self) -> (s: String) {
        (*self).to_owned()
    }
}

impl Token for String {
    open spec fn text(&self) -> Seq<char> {
        self@
    }

    fn to_token(&self) -> (s: String) {
        self.clone()
    }
}

impl<'a> Token for &'a String {
    open spec fn text(&self) -> Seq<char> {
        self@
    }

    fn to_token(&self) -> (s: String) {
        (*self).clone()
    }
}

/// The characters of each string of a sequence, in order.
pub open spec fn tokens_of(v: Seq<String>) -> Seq<Seq<char>> {
    v.map_values(|s: String| s@)
}

/// The characters of each token of a sequence, in order.
pub open spec fn texts_of<S: Token>(v: Seq<S>) -> Seq<Seq<char>> {
    v.map_values(|s: S| s.text())
}

/// An ordered list of command-line tokens. Tokens are only ever appended:
/// nothing is reordered, removed or deduplicated, and the order of insertion
/// is the order on the command line.
pub struct ArgStack {
    args: Vec<String>,
}

impl View for ArgStack {
    type V = Seq<Seq<char>>;

    closed spec fn view(&self) -> Seq<Seq<char>> {
        tokens_of(self.args@)
    }
}

impl Default for ArgStack {
    /// The empty sequence.
    fn default() -> (stack: ArgStack)
        ensures
            stack@ == Seq::<Seq<char>>::empty(),
    {
        let stack = ArgStack { args: Vec::new() };
        assert(stack@ =~= Seq::<Seq<char>>::empty());
        stack
    }
}

impl ArgStack {
    /// Appends one token at the end and leaves every earlier token in place.
    /// The stack itself is handed back so that appends can be chained.
    pub fn arg<S: Token>(&mut self, arg: S) -> (stack: &mut Self)
        ensures
            stack@ == old(self)@.push(arg.text()),
            *final(self) == *final(stack),
    {
        self.args.push(arg.to_token());
        assert(self@ =~= old(self)@.push(arg.text()));
        self
    }

    /// Appends every token of `args`, in their order, after the tokens
    /// already present.
    pub fn args<S: Token>(&mut self, args: &[S])
        ensures
            final(self)@ == old(self)@ + texts_of(args@),
    {
        let n = args.len();
        let mut i: usize = 0;
        while i < n
            invariant
                n == args@.len(),
                i <= n,
                self@ == old(self)@ + texts_of(args@.take(i as int)),
            decreases n - i,
        {
            let ghost before = self@;
            self.args.push(args[i].to_token());
            assert(self@ =~= before.push(args@[i as int].text()));
            assert(texts_of(args@.take(i + 1)) =~= texts_of(args@.take(i as int)).push(
                args@[i as int].text(),
            ));
            i = i + 1;
        }
        assert(args@.take(n as int) =~= args@);
    }

    /// The tokens gathered so far, in command-line order.
    pub fn tokens(&self) -> (tokens: &Vec<String>)
        ensures
            tokens_of(tokens@) == self@,
    {
        &self.args
    }

    /// The tokens gathered so far, handed over to the caller.
    pub fn into_tokens(self) -> (tokens: Vec<String>)
        ensures
            tokens_of(tokens@) == self@,
    {
        self.args
    }
}

} // verus!
