//! The polymorphic task abstraction.
//!
//! Every task variant exposes a stable type tag and a complete property
//! mapping; serialization combines the two into a flat tagged document.
//! New task kinds are added by implementing [`Task`], not by changing the
//! serializer.

use vstd::prelude::*;
use crate::props::Properties;

pub mod classification;
pub mod funcaptcha;

verus! {

/// The document that serializing a task denotes: the `type` key bound to
/// the tag, and every property bound to its value. A property named
/// `type` would override the tag, since properties are written last.
pub open spec fn tagged_doc(tag: Seq<char>, props: Map<Seq<char>, Seq<char>>) -> Map<
    Seq<char>,
    Seq<char>,
> {
    Map::empty().insert("type"@, tag).union_prefer_right(props)
}

/// A unit of captcha-solving work that the service can be asked to do.
pub trait Task {
    /// The type tag of this variant, as a mathematical value.
    spec fn spec_task_type(&self) -> Seq<char>;

    /// The property mapping of this variant, as a mathematical value.
    spec fn spec_properties(&self) -> Map<Seq<char>, Seq<char>>;

    /// The stable type tag sent as the document's `type` field.
    fn task_type(&self) -> (r: &'static str)
        ensures
            r@ == self.spec_task_type(),
    ;

    /// The complete property mapping of the task.
    fn properties(&self) -> (r: Properties)
        ensures
            r@ == self.spec_properties(),
    ;

    /// Serializes the task into the flat tagged document
    /// `{type, ...properties}`. Total over every conforming variant.
    fn serialize(&self) -> (doc: Properties)
        ensures
            doc@ == tagged_doc(self.spec_task_type(), self.spec_properties()),
    {
        let mut doc = Properties::new();
        doc.insert("type".to_owned(), self.task_type().to_owned());
        let props = self.properties();
        let pairs = props.pairs();
        let ghost base = Map::<Seq<char>, Seq<char>>::empty().insert(
            "type"@,
            self.spec_task_type(),
        );
        let n = pairs.len();
        let mut i: usize = 0;
        proof {
            assert(doc@ =~= base.union_prefer_right(
                crate::props::entries_map(pairs@.take(0)),
            ));
        }
        while i < n
            invariant
                i <= n,
                n == pairs@.len(),
                crate::props::entries_map(pairs@) == self.spec_properties(),
                doc@ == base.union_prefer_right(crate::props::entries_map(pairs@.take(i as int))),
            decreases n - i,
        {
            let key = pairs[i].0.clone();
            let value = pairs[i].1.clone();
            doc.insert(key, value);
            proof {
                assert(pairs@.take(i + 1).drop_last() =~= pairs@.take(i as int));
                assert(pairs@.take(i + 1).last() == pairs@[i as int]);
                assert(doc@ =~= base.union_prefer_right(
                    crate::props::entries_map(pairs@.take(i + 1)),
                ));
            }
            i = i + 1;
        }
        proof {
            assert(pairs@.take(n as int) =~= pairs@);
        }
        doc
    }
}

/// What the tagged document holds, key by key: the tag under `type`
/// (unless a property overrides it), every property under its own key,
/// and nothing else.
pub proof fn lemma_tagged_doc(tag: Seq<char>, props: Map<Seq<char>, Seq<char>>)
    ensures
        tagged_doc(tag, props).contains_key("type"@),
        !props.contains_key("type"@) ==> tagged_doc(tag, props)["type"@] == tag,
        forall|k: Seq<char>| #[trigger] props.contains_key(k) ==> tagged_doc(tag, props).contains_key(k)
            && tagged_doc(tag, props)[k] == props[k],
        forall|k: Seq<char>| #[trigger] tagged_doc(tag, props).contains_key(k) ==> k == "type"@
            || props.contains_key(k),
{
}

} // verus!
