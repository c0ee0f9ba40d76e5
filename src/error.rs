use vstd::prelude::*;

verus! {

/// What a failure looks like to an observer: its display text and its debug text.
pub struct FailureView {
    pub display: Seq<char>,
    pub debug: Seq<char>,
}

/// One failure value: a thing that can describe itself as text, in a primary
/// display form and in a more detailed debug form.
pub struct Failure {
    display: String,
    debug: String,
}

impl View for Failure {
    type V = FailureView;

    closed spec fn view(&self) -> FailureView {
        FailureView { display: self.display@, debug: self.debug@ }
    }
}

impl Failure {
    /// A failure that renders as `display`, and as `debug` in debug form.
    pub fn new(display: String, debug: String) -> (r: Failure)
        ensures
            r@.display == display@,
            r@.debug == debug@,
    {
        Failure { display, debug }
    }

    /// Its display text.
    pub fn display(&self) -> (r: &str)
        ensures
            r@ == self@.display,
    {
        self.display.as_str()
    }

    /// Its debug text.
    pub fn debug(&self) -> (r: &str)
        ensures
            r@ == self@.debug,
    {
        self.debug.as_str()
    }
}

/// The debug form of the text `s`, as `str`'s `Debug` renders it.
pub uninterp spec fn debug_form(s: Seq<char>) -> Seq<char>;

/// Relies on `Debug` for `str` (through `format!("{:?}")`), which quotes the
/// text and escapes it; the result depends on the text alone.
#[verifier::external_body]
fn debug_text(s: &str) -> (r: String)
    ensures
        r@ == debug_form(s@),
{
    format!("{:?}", s)
}

/// What separates a context message from the debug text of its cause.
pub open spec fn separator() -> Seq<char> {
    seq![':', ' ']
}

/// The layer that a context message `context` makes over a failure whose debug
/// text is `inner_debug`: it displays as the message alone, and its debug text
/// is the message followed by the cause's debug text.
pub open spec fn context_layer(context: Seq<char>, inner_debug: Seq<char>) -> FailureView {
    FailureView { display: context, debug: context + separator() + inner_debug }
}

/// The chain of a container that holds the failure `f` and nothing more.
pub open spec fn leaf_chain(f: FailureView) -> Seq<FailureView> {
    seq![f]
}

/// The chain that attaching `context` in front of `chain` gives: the new layer
/// first, then every layer of `chain` in its order.
pub open spec fn attached(chain: Seq<FailureView>, context: Seq<char>) -> Seq<FailureView>
    recommends
        chain.len() >= 1,
{
    seq![context_layer(context, chain[0].debug)] + chain
}

/// The opaque error container. It owns exactly one failure, which may be a
/// stack of context layers over an original failure.
pub struct Error {
    /// The layers from the innermost (the original failure) to the outermost
    /// (the context attached last).
    layers: Vec<Failure>,
}

impl View for Error {
    /// The cause chain, outermost layer first.
    type V = Seq<FailureView>;

    closed spec fn view(&self) -> Seq<FailureView> {
        let n = self.layers@.len();
        Seq::new(n, |i: int| self.layers@[n - 1 - i]@)
    }
}

impl Error {
    #[verifier::type_invariant]
    spec fn holds_one(&self) -> bool {
        self.layers@.len() >= 1
    }

    /// Wraps the failure `error` in a new container.
    pub fn new(error: Failure) -> (r: Error)
        ensures
            r@ == leaf_chain(error@),
    {
        let mut layers: Vec<Failure> = Vec::new();
        layers.push(error);
        let r = Error { layers };
        assert(r@ =~= leaf_chain(error@));
        r
    }

    /// Wraps a failure that names causes of its own: `chain` lists it and then
    /// its causes, each one the immediate cause of the one before. The
    /// container's chain is that list. Nothing comes of an empty list.
    pub fn new_layered(chain: Vec<Failure>) -> (r: Option<Error>)
        ensures
            chain@.len() == 0 ==> r is None,
            chain@.len() > 0 ==> r is Some && r->0@ == chain@.map_values(|f: Failure| f@),
    {
        let mut chain = chain;
        let ghost given = chain@;
        let mut layers: Vec<Failure> = Vec::new();
        while chain.len() > 0
            invariant
                chain@ == given.subrange(0, chain@.len() as int),
                layers@.len() + chain@.len() == given.len(),
                forall|i: int|
                    0 <= i < layers@.len() ==> #[trigger] layers@[i] == given[given.len() - 1 - i],
            decreases chain@.len(),
        {
            let f = chain.pop().unwrap();
            layers.push(f);
        }
        if layers.len() == 0 {
            return None;
        }
        let r = Error { layers };
        assert(r@ =~= given.map_values(|f: Failure| f@));
        Some(r)
    }

    /// Wraps the text `message` in a new container, as a failure that has no
    /// cause: it displays as the text itself, and its debug form is the text
    /// quoted.
    pub fn msg(message: String) -> (r: Error)
        ensures
            r@ == leaf_chain(FailureView { display: message@, debug: debug_form(message@) }),
    {
        let debug = debug_text(message.as_str());
        Error::new(Failure { display: message, debug })
    }

    /// Wraps the container in a new layer that displays as `context` and names
    /// the old container's outermost layer as its cause.
    pub fn context(self, context: String) -> (r: Error)
        ensures
            r@ == attached(self@, context@),
    {
        proof {
            use_type_invariant(&self);
        }
        let mut layers = self.layers;
        let top = layers.len() - 1;
        proof {
            reveal_strlit(": ");
            assert(": "@ =~= separator());
        }
        let mut debug = context.clone();
        debug.append(": ");
        debug.append(layers[top].debug.as_str());
        let layer = Failure { display: context, debug };
        assert(layer@.debug =~= context_layer(context@, self@[0].debug).debug);
        assert(layer@ == context_layer(context@, self@[0].debug));
        layers.push(layer);
        let r = Error { layers };
        assert(r@ =~= attached(self@, context@));
        r
    }

    /// The display text of the container: that of its outermost layer alone.
    pub fn to_string(&self) -> (r: String)
        ensures
            r@ == self@[0].display,
    {
        proof {
            use_type_invariant(self);
        }
        self.layers[self.layers.len() - 1].display.clone()
    }

    /// The debug text of the container: that of its outermost layer, which for
    /// a context layer holds its message and then the debug text of its cause.
    pub fn to_debug_string(&self) -> (r: String)
        ensures
            r@ == self@[0].debug,
    {
        proof {
            use_type_invariant(self);
        }
        self.layers[self.layers.len() - 1].debug.clone()
    }

    /// Read-only access to the failure that the container holds: its
    /// outermost layer.
    pub fn as_failure(&self) -> (r: &Failure)
        ensures
            r@ == self@[0],
    {
        proof {
            use_type_invariant(self);
        }
        &self.layers[self.layers.len() - 1]
    }

    /// The immediate cause of the outermost layer, if it has one.
    pub fn source(&self) -> (r: Option<&Failure>)
        ensures
            self@.len() == 1 ==> r is None,
            self@.len() > 1 ==> r is Some && r->0@ == self@[1],
    {
        proof {
            use_type_invariant(self);
        }
        let n = self.layers.len();
        if n == 1 {
            None
        } else {
            Some(&self.layers[n - 2])
        }
    }

    /// A cursor over the cause chain, from the outermost layer to the
    /// original failure.
    pub fn chain(&self) -> (r: Chain<'_>)
        ensures
            r@ == self@,
            r@.len() >= 1,
    {
        proof {
            use_type_invariant(self);
        }
        let r = Chain { error: self, remaining: self.layers.len() };
        assert(r@ =~= self@);
        r
    }
}

/// Any failure turns into a container of its own, so that it propagates with
/// `?` without an explicit call of [`Error::new`].
impl From<Failure> for Error {
    fn from(value: Failure) -> (r: Error)
        ensures
            r@ == leaf_chain(value@),
    {
        Error::new(value)
    }
}

impl vstd::std_specs::convert::FromSpecImpl<Failure> for Error {
    /// The result is stated by the `ensures` of `from` instead, over the view.
    open spec fn obeys_from_spec() -> bool {
        false
    }

    open spec fn from_spec(v: Failure) -> Error {
        arbitrary()
    }
}

/// A cursor over a container's cause chain. It yields each layer once, from
/// the outermost to the innermost, and then nothing, however often it is asked.
pub struct Chain<'a> {
    error: &'a Error,
    /// How many layers are still to come: the innermost `remaining` ones.
    remaining: usize,
}

impl<'a> View for Chain<'a> {
    /// The layers still to come, in the order they will come.
    type V = Seq<FailureView>;

    closed spec fn view(&self) -> Seq<FailureView> {
        let n = self.remaining as int;
        Seq::new(self.remaining as nat, |i: int| self.error.layers@[n - 1 - i]@)
    }
}

impl<'a> Chain<'a> {
    #[verifier::type_invariant]
    spec fn within(&self) -> bool {
        self.remaining <= self.error.layers@.len()
    }

    /// The next layer, or nothing once every layer has been yielded.
    pub fn next(&mut self) -> (r: Option<&'a Failure>)
        ensures
            old(self)@.len() == 0 ==> r is None && final(self)@ == old(self)@,
            old(self)@.len() > 0 ==> r is Some && r->0@ == old(self)@[0] && final(self)@
                == old(self)@.drop_first(),
    {
        proof {
            use_type_invariant(&*self);
        }
        if self.remaining == 0 {
            return None;
        }
        let error: &'a Error = self.error;
        self.remaining = self.remaining - 1;
        let layer: &'a Failure = &error.layers[self.remaining];
        assert(final(self)@ =~= old(self)@.drop_first());
        Some(layer)
    }
}

} // verus!
