//! The cause chain walker: enumerates an error value and the errors beneath
//! it by repeatedly asking for the wrapped cause.

use vstd::prelude::*;

verus! {

/// What the envelope asks of an error code value: render a short message,
/// and hand out the wrapped cause, if any. An implementation exposes its
/// message and its whole finite cause chain to specifications, so that the
/// walker's result can be pinned exactly.
pub trait ErrorLike: Sized {
    /// The characters of this value's rendered short message.
    spec fn msg_view(&self) -> Seq<char>;

    /// The rendered messages of this value and of each cause beneath it, in
    /// order: this value's own message first.
    spec fn chain_view(&self) -> Seq<Seq<char>>;

    /// Renders this value's short message.
    fn render(&self) -> (r: String)
        ensures
            r@ == self.msg_view(),
    ;

    /// This value's direct cause, when it has one. Every value's chain holds
    /// at least its own message, so a cause's chain is never empty.
    fn cause(&self) -> (r: Option<&Self>)
        ensures
            match r {
                Option::Some(c) => self.chain_view() == seq![self.msg_view()] + c.chain_view()
                    && c.chain_view().len() >= 1,
                Option::None => self.chain_view() == seq![self.msg_view()],
            },
    ;
}

/// The views of a sequence of owned strings.
pub open spec fn msgs_of(v: Seq<String>) -> Seq<Seq<char>> {
    v.map_values(|s: String| s@)
}

/// Walks the cause chain from `head`: yields `head`'s rendered message, then
/// each cause's in turn, until a value without a cause ends the chain.
pub fn cause_chain<E: ErrorLike>(head: &E) -> (r: Vec<String>)
    ensures
        r@.len() == head.chain_view().len(),
        forall|i: int| 0 <= i < r@.len() ==> (#[trigger] r@[i])@ == head.chain_view()[i],
{
    let mut out: Vec<String> = Vec::new();
    let mut cur: &E = head;
    proof {
        assert(msgs_of(out@) + cur.chain_view() =~= head.chain_view());
    }
    loop
        invariant_except_break
            msgs_of(out@) + cur.chain_view() == head.chain_view(),
        ensures
            msgs_of(out@) == head.chain_view(),
        decreases cur.chain_view().len(),
    {
        let ghost msgs_before = msgs_of(out@);
        let ghost cur_chain = cur.chain_view();
        out.push(cur.render());
        proof {
            assert(msgs_of(out@) =~= msgs_before + seq![cur.msg_view()]);
        }
        match cur.cause() {
            Option::Some(c) => {
                proof {
                    assert(msgs_of(out@) + c.chain_view() =~= (msgs_before + seq![cur.msg_view()])
                        + c.chain_view());
                    assert((msgs_before + seq![cur.msg_view()]) + c.chain_view() =~= msgs_before + (
                    seq![cur.msg_view()] + c.chain_view()));
                    assert(c.chain_view().len() < cur_chain.len());
                }
                cur = c;
            },
            Option::None => {
                proof {
                    assert(msgs_of(out@) =~= msgs_before + cur_chain);
                }
                break ;
            },
        }
    }
    proof {
        assert(forall|i: int|
            0 <= i < out@.len() ==> (#[trigger] out@[i])@ == head.chain_view()[i]);
    }
    out
}

/// A ready-made error code: a message and an optional boxed cause of the
/// same shape.
pub struct BasicCode {
    pub msg: String,
    pub cause: Option<Box<BasicCode>>,
}

impl BasicCode {
    /// The rendered messages of this code and of each cause beneath it.
    pub open spec fn spec_chain(self) -> Seq<Seq<char>>
        decreases self,
    {
        match self.cause {
            Option::Some(b) => seq![self.msg@] + (*b).spec_chain(),
            Option::None => seq![self.msg@],
        }
    }
}

impl ErrorLike for BasicCode {
    open spec fn msg_view(&self) -> Seq<char> {
        self.msg@
    }

    open spec fn chain_view(&self) -> Seq<Seq<char>> {
        (*self).spec_chain()
    }

    fn render(&self) -> (r: String) {
        self.msg.clone()
    }

    fn cause(&self) -> (r: Option<&BasicCode>) {
        match &self.cause {
            Option::Some(b) => Option::Some(&*b),
            Option::None => Option::None,
        }
    }
}

} // verus!
