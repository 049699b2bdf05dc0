//! The snapshot tree and the capture operation.

use vstd::prelude::*;

verus! {

/// An error that has been made serialization-capable, but has lost its
/// fields: only the description, the display text and the cause chain of the
/// source error survive, copied verbatim at capture time.
pub struct PseudoError {
    cause: Option<Box<PseudoError>>,
    desc: String,
    disp: String,
}

impl PseudoError {
    /// The mathematical model of a snapshot: the (description, display) pair
    /// of every node along the cause chain, this node first.
    pub closed spec fn chain(self) -> Seq<(Seq<char>, Seq<char>)>
        decreases self,
    {
        match self.cause {
            None => seq![(self.desc@, self.disp@)],
            Some(c) => seq![(self.desc@, self.disp@)] + c.chain(),
        }
    }

    /// Every snapshot models at least its own node.
    pub proof fn lemma_chain_nonempty(self)
        ensures
            self.chain().len() >= 1,
    {
    }
}

/// Structural equivalence of snapshots: descriptions, display texts and
/// causes match at every level of the two chains.
pub open spec fn equivalent(a: PseudoError, b: PseudoError) -> bool {
    a.chain() == b.chain()
}

/// The minimal error capability set: a description, a display rendering, and
/// an optional direct cause. Capture reads a live error only through these
/// three operations, never through its concrete type.
///
/// An implementor is usually a cheap reference-like value, such as `&E` or a
/// small sum over references into a chain of several error types; `cause`
/// then hands out the next such value without giving up ownership of the
/// underlying errors.
pub trait LiveError: Sized {
    /// The (description, display) record of this error alone. An implementor
    /// under verification gives this a body of its own; only then do the
    /// contracts below promise anything about its values.
    open spec fn head(&self) -> (Seq<char>, Seq<char>) {
        (Seq::empty(), Seq::empty())
    }

    /// The (description, display) records of the errors strictly below this
    /// one, outermost cause first. Empty when the error has no cause. An
    /// implementor under verification gives this a body of its own.
    open spec fn causes(&self) -> Seq<(Seq<char>, Seq<char>)> {
        Seq::empty()
    }

    /// The human-readable description of this error.
    fn description(&self) -> (r: String)
        ensures
            r@ == self.head().0,
    ;

    /// The display rendering of this error.
    fn display_text(&self) -> (r: String)
        ensures
            r@ == self.head().1,
    ;

    /// The direct cause of this error, if it has one.
    fn cause(&self) -> (r: Option<Self>)
        ensures
            match r {
                Some(c) => self.causes().len() >= 1 && c.head() == self.causes()[0]
                    && c.causes() == self.causes().skip(1),
                None => self.causes().len() == 0,
            },
    ;
}

/// The full model of a live error: its own record followed by the records of
/// its causes, outermost first.
pub open spec fn error_model<E: LiveError>(err: &E) -> Seq<(Seq<char>, Seq<char>)> {
    seq![err.head()] + err.causes()
}

/// A snapshot node itself satisfies the minimal error capability set, so a
/// decoded snapshot is usable wherever the source error could be read:
/// `description` and `display_text` return the stored texts, and `cause`
/// hands out a reference to the stored nested node.
impl<'a> LiveError for &'a PseudoError {
    closed spec fn head(&self) -> (Seq<char>, Seq<char>) {
        (self.desc@, self.disp@)
    }

    closed spec fn causes(&self) -> Seq<(Seq<char>, Seq<char>)> {
        self.chain().skip(1)
    }

    fn description(&self) -> (r: String) {
        self.desc.clone()
    }

    fn display_text(&self) -> (r: String) {
        self.disp.clone()
    }

    fn cause(&self) -> (r: Option<&'a PseudoError>) {
        match &self.cause {
            None => None,
            Some(c) => {
                proof {
                    c.lemma_chain_nonempty();
                    assert(self.chain().skip(1) =~= c.chain());
                    assert(c.chain().skip(1) =~= self.chain().skip(1).skip(1));
                }
                Some(&**c)
            },
        }
    }
}

/// A snapshot models exactly its own record followed by those of its causes:
/// read as a live error, a snapshot's model is its chain.
pub proof fn lemma_snapshot_model(e: &PseudoError)
    ensures
        error_model(&e) == e.chain(),
{
    e.lemma_chain_nonempty();
    assert(error_model(&e) =~= e.chain());
}

/// Walks the cause chain of a live error and produces an owned snapshot tree:
/// one node per error, each holding that error's description and display text.
/// The source error is only read, never consumed.
pub fn capture<E: LiveError>(err: &E) -> (r: PseudoError)
    ensures
        r.chain() == error_model(err),
    decreases err.causes().len(),
{
    let desc = err.description();
    let disp = err.display_text();
    match err.cause() {
        None => {
            let r = PseudoError { cause: None, desc, disp };
            proof {
                assert(r.chain() =~= error_model(err));
            }
            r
        },
        Some(c) => {
            let sub = capture(&c);
            let r = PseudoError { cause: Some(Box::new(sub)), desc, disp };
            proof {
                assert(sub.chain() =~= err.causes());
                assert(r.chain() =~= error_model(err));
            }
            r
        },
    }
}

/// Capture is idempotent: capturing the same live error twice yields two
/// structurally equal snapshot trees, since any two snapshots whose chains
/// both equal the error's model are equivalent.
pub proof fn lemma_capture_idempotent<E: LiveError>(err: &E, a: PseudoError, b: PseudoError)
    requires
        a.chain() == error_model(err),
        b.chain() == error_model(err),
    ensures
        equivalent(a, b),
{
}

impl PseudoError {
    /// Decides structural equivalence: true iff the descriptions, display
    /// texts and causes of the two snapshots match at every level.
    pub fn equivalent_to(&self, other: &PseudoError) -> (r: bool)
        ensures
            r == equivalent(*self, *other),
        decreases *self,
    {
        if !(self.desc == other.desc && self.disp == other.disp) {
            proof {
                assert(self.chain()[0] == (self.desc@, self.disp@));
                assert(other.chain()[0] == (other.desc@, other.disp@));
            }
            return false;
        }
        match (&self.cause, &other.cause) {
            (None, None) => true,
            (Some(a), Some(b)) => {
                let r = a.equivalent_to(b);
                proof {
                    if a.chain() == b.chain() {
                        assert(self.chain() =~= other.chain());
                    } else {
                        assert(self.chain().skip(1) =~= a.chain());
                        assert(other.chain().skip(1) =~= b.chain());
                    }
                }
                r
            },
            (None, Some(b)) => {
                proof {
                    b.lemma_chain_nonempty();
                }
                false
            },
            (Some(a), None) => {
                proof {
                    a.lemma_chain_nonempty();
                }
                false
            },
        }
    }
}

/// Flattens a snapshot tree into the (description, display) records of its
/// chain, this node's record first, as the value handed to an encoder.
pub(crate) fn chain_to_records(e: &PseudoError) -> (r: Vec<(String, String)>)
    ensures
        r.deep_view() == e.chain(),
    decreases *e,
{
    match &e.cause {
        None => {
            let mut v: Vec<(String, String)> = Vec::new();
            v.push((e.desc.clone(), e.disp.clone()));
            proof {
                assert(v.deep_view() =~= e.chain());
            }
            v
        },
        Some(c) => {
            let mut v = chain_to_records(c);
            v.insert(0, (e.desc.clone(), e.disp.clone()));
            proof {
                assert(v.deep_view() =~= e.chain());
            }
            v
        },
    }
}

/// Rebuilds a snapshot tree from decoded (description, display) records, the
/// root's record first. Yields nothing when the record list is empty, since
/// every snapshot tree has at least one node.
pub(crate) fn records_to_chain(v: &Vec<(String, String)>) -> (r: Option<PseudoError>)
    ensures
        match r {
            Some(p) => v.deep_view().len() >= 1 && p.chain() == v.deep_view(),
            None => v.deep_view().len() == 0,
        },
{
    let r = build_suffix(v, 0);
    proof {
        assert(v.deep_view().skip(0) =~= v.deep_view());
    }
    r
}

/// Rebuilds the snapshot subtree for the records from position `i` on.
fn build_suffix(v: &Vec<(String, String)>, i: usize) -> (r: Option<PseudoError>)
    requires
        i <= v@.len(),
    ensures
        match r {
            Some(p) => i < v@.len() && p.chain() == v.deep_view().skip(i as int),
            None => i == v@.len(),
        },
    decreases v@.len() - i,
{
    if i == v.len() {
        None
    } else {
        let rest = build_suffix(v, i + 1);
        let pair = &v[i];
        let desc = pair.0.clone();
        let disp = pair.1.clone();
        let cause = match rest {
            Some(p) => Some(Box::new(p)),
            None => None,
        };
        let node = PseudoError { cause, desc, disp };
        proof {
            assert(node.chain() =~= v.deep_view().skip(i as int));
        }
        Some(node)
    }
}

} // verus!
