//! The social-graph store: posts with bounded reaction counters, comments
//! whose content is part of their identity, and at most one live reaction
//! per author and post. Every record is located by re-deriving its address;
//! ownership of a comment or reaction is structural — the closer must
//! re-derive the record's address from their own identity. Counters saturate
//! at their bounds: a mutation that would cross a bound is rejected, never
//! wrapped. A rejected mutation applies zero side effects.

use vstd::prelude::*;

use crate::addr::{
    clone_address, clone_bytes, derive_address, full_seeds, hash_of, pda_of, seeds_view, sha256,
    verify_address, Address, cpa_of, address_eq,
};
use crate::authority::Actor;
use crate::errors::LedgerError;
use crate::store::{Entry, Store};

verus! {

/// The longest comment content accepted, in bytes.
pub const MAX_COMMENT_LENGTH: usize = 280;

/// The kind of a reaction to a post.
#[derive(Clone, Copy, PartialEq, Eq, Structural, Debug)]
pub enum ReactionKind {
    Like,
    Dislike,
}

/// A post: its author, its topic, its bounded reaction counters, and its
/// derivation nonce. Its address is derived from the topic and the author.
#[derive(Debug)]
pub struct Post {
    pub author: Address,
    pub topic: Vec<u8>,
    pub likes: u64,
    pub dislikes: u64,
    pub nonce: u8,
}

/// A comment under a post. The content hash is a derivation seed, so the
/// content is part of the record's identity: editing is delete-and-recreate,
/// never in-place update.
#[derive(Debug)]
pub struct Comment {
    pub author: Address,
    pub parent_post: Address,
    pub content: Vec<u8>,
    pub nonce: u8,
}

/// A reaction to a post. Its address is derived from the author and the
/// post alone, so at most one live reaction per (author, post) pair exists.
#[derive(Debug)]
pub struct Reaction {
    pub author: Address,
    pub parent_post: Address,
    pub kind: ReactionKind,
    pub nonce: u8,
}

/// The domain tag of post records: the bytes of "post".
pub open spec fn post_tag_spec() -> Seq<u8> {
    seq![112u8, 111u8, 115u8, 116u8]
}

/// The domain tag of comment records: the bytes of "comment".
pub open spec fn comment_tag_spec() -> Seq<u8> {
    seq![99u8, 111u8, 109u8, 109u8, 101u8, 110u8, 116u8]
}

/// The domain tag of reaction records: the bytes of "reaction".
pub open spec fn reaction_tag_spec() -> Seq<u8> {
    seq![114u8, 101u8, 97u8, 99u8, 116u8, 105u8, 111u8, 110u8]
}

/// The full derivation seed tuple of a post.
pub open spec fn post_seeds_spec(topic: Seq<u8>, author: Seq<u8>) -> Seq<Seq<u8>> {
    full_seeds(post_tag_spec(), seq![topic, author])
}

/// The full derivation seed tuple of a comment: the content enters through
/// its hash.
pub open spec fn comment_seeds_spec(author: Seq<u8>, content: Seq<u8>, parent: Seq<u8>) -> Seq<
    Seq<u8>,
> {
    full_seeds(comment_tag_spec(), seq![author, hash_of(content), parent])
}

/// The full derivation seed tuple of a reaction.
pub open spec fn reaction_seeds_spec(author: Seq<u8>, parent: Seq<u8>) -> Seq<Seq<u8>> {
    full_seeds(reaction_tag_spec(), seq![author, parent])
}

/// Whether a claimed post address passes re-derivation from the post's own
/// topic, author and nonce.
pub open spec fn post_addr_verified(post: Post, claimed: Seq<u8>, program: Seq<u8>) -> bool {
    cpa_of(post_seeds_spec(post.topic@, post.author@).push(seq![post.nonce]), program) == Some(
        claimed,
    )
}

/// Whether a claimed comment address passes re-derivation from an author
/// identity, the content, the parent post and a nonce.
pub open spec fn comment_addr_verified(
    author: Seq<u8>,
    content: Seq<u8>,
    parent: Seq<u8>,
    nonce: u8,
    claimed: Seq<u8>,
    program: Seq<u8>,
) -> bool {
    cpa_of(comment_seeds_spec(author, content, parent).push(seq![nonce]), program) == Some(claimed)
}

/// Whether a claimed reaction address passes re-derivation from an author
/// identity, the parent post and a nonce.
pub open spec fn reaction_addr_verified(
    author: Seq<u8>,
    parent: Seq<u8>,
    nonce: u8,
    claimed: Seq<u8>,
    program: Seq<u8>,
) -> bool {
    cpa_of(reaction_seeds_spec(author, parent).push(seq![nonce]), program) == Some(claimed)
}

/// The counter of a post that a reaction kind touches.
pub open spec fn counter_of(post: Post, kind: ReactionKind) -> u64 {
    match kind {
        ReactionKind::Like => post.likes,
        ReactionKind::Dislike => post.dislikes,
    }
}

/// Whether the counter a reaction kind touches may still grow.
pub open spec fn can_bump(post: Post, kind: ReactionKind) -> bool {
    counter_of(post, kind) < u64::MAX
}

/// Whether the counter a reaction kind touches may still shrink.
pub open spec fn can_drop(post: Post, kind: ReactionKind) -> bool {
    counter_of(post, kind) > 0
}

/// The post after one more reaction of a kind.
pub open spec fn bumped(post: Post, kind: ReactionKind) -> Post {
    match kind {
        ReactionKind::Like => Post { likes: (post.likes + 1) as u64, ..post },
        ReactionKind::Dislike => Post { dislikes: (post.dislikes + 1) as u64, ..post },
    }
}

/// The post after one reaction of a kind is removed.
pub open spec fn dropped(post: Post, kind: ReactionKind) -> Post {
    match kind {
        ReactionKind::Like => Post { likes: (post.likes - 1) as u64, ..post },
        ReactionKind::Dislike => Post { dislikes: (post.dislikes - 1) as u64, ..post },
    }
}

/// Law: reaction increment and decrement are paired. Adding a reaction of a
/// kind and then removing one returns the touched counter — and the whole
/// post — to its value before the pair.
pub proof fn lemma_reaction_pairing(post: Post, kind: ReactionKind)
    requires
        can_bump(post, kind),
    ensures
        can_drop(bumped(post, kind), kind),
        dropped(bumped(post, kind), kind) == post,
{
}

/// The domain tag of post records.
pub fn post_tag() -> (r: Vec<u8>)
    ensures
        r@ == post_tag_spec(),
{
    let mut t: Vec<u8> = Vec::new();
    t.push(112);
    t.push(111);
    t.push(115);
    t.push(116);
    proof {
        assert(t@ =~= post_tag_spec());
    }
    t
}

/// The domain tag of comment records.
pub fn comment_tag() -> (r: Vec<u8>)
    ensures
        r@ == comment_tag_spec(),
{
    let mut t: Vec<u8> = Vec::new();
    t.push(99);
    t.push(111);
    t.push(109);
    t.push(109);
    t.push(101);
    t.push(110);
    t.push(116);
    proof {
        assert(t@ =~= comment_tag_spec());
    }
    t
}

/// The domain tag of reaction records.
pub fn reaction_tag() -> (r: Vec<u8>)
    ensures
        r@ == reaction_tag_spec(),
{
    let mut t: Vec<u8> = Vec::new();
    t.push(114);
    t.push(101);
    t.push(97);
    t.push(99);
    t.push(116);
    t.push(105);
    t.push(111);
    t.push(110);
    proof {
        assert(t@ =~= reaction_tag_spec());
    }
    t
}

/// Checks a claimed post address against re-derivation from the post's own
/// topic, author and nonce.
pub fn check_post_address(post: &Post, claimed: &Address, program: &Address) -> (r: bool)
    requires
        program@.len() == 32,
    ensures
        r == post_addr_verified(*post, claimed@, program@),
{
    let tag = post_tag();
    let mut seeds: Vec<Vec<u8>> = Vec::new();
    seeds.push(clone_bytes(&post.topic));
    seeds.push(clone_bytes(&post.author.bytes));
    proof {
        assert(seeds_view(seeds@) =~= seq![post.topic@, post.author@]);
    }
    verify_address(claimed, &tag, &seeds, post.nonce, program)
}

/// Creates a comment under a post. The content may not exceed
/// MAX_COMMENT_LENGTH bytes; the record's address is derived from the
/// author, the content hash and the parent post, so an identical
/// (author, content, post) triple with a live comment is a DuplicateAddress.
/// The author pays the residual storage balance the record must hold. Any
/// rejection leaves the store and the author untouched — in particular an
/// over-long content never creates a record.
pub fn add_comment(
    author: &mut Actor,
    post_address: &Address,
    content: Vec<u8>,
    residual: u64,
    comments: &mut Store<Comment>,
    program: &Address,
) -> (r: Result<Address, LedgerError>)
    requires
        program@.len() == 32,
        old(comments).wf(),
    ensures
        final(comments).wf(),
        !old(author).signed ==> r is Err && r->Err_0 == LedgerError::NotSigner,
        old(author).signed && content@.len() > MAX_COMMENT_LENGTH ==> r is Err && r->Err_0
            == LedgerError::ContentTooLong,
        ({
            let pda = pda_of(
                comment_seeds_spec(old(author).key@, content@, post_address@),
                program@,
            );
            old(author).signed && content@.len() <= MAX_COMMENT_LENGTH ==> if pda is None {
                r is Err && r->Err_0 == LedgerError::AddressMismatch
            } else if old(comments).has_addr(pda.unwrap().0) {
                r is Err && r->Err_0 == LedgerError::DuplicateAddress
            } else if old(author).balance < residual {
                r is Err && r->Err_0 == LedgerError::InsufficientBalance
            } else {
                &&& r is Ok
                &&& r->Ok_0@ == pda.unwrap().0
                &&& final(comments).entries@.len() == old(comments).entries@.len() + 1
                &&& final(comments).entries@.drop_last() == old(comments).entries@
                &&& final(comments).entries@.last().address@ == pda.unwrap().0
                &&& final(comments).entries@.last().residual == residual
                &&& final(comments).entries@.last().record.author@ == old(author).key@
                &&& final(comments).entries@.last().record.parent_post@ == post_address@
                &&& final(comments).entries@.last().record.content@ == content@
                &&& final(comments).entries@.last().record.nonce == pda.unwrap().1
                &&& final(author).balance == old(author).balance - residual
            }
        }),
        r is Err ==> final(comments).entries@ == old(comments).entries@ && *final(author) == *old(
            author,
        ),
        final(author).key == old(author).key && final(author).signed == old(author).signed,
{
    if !author.signed {
        return Err(LedgerError::NotSigner);
    }
    if content.len() > MAX_COMMENT_LENGTH {
        return Err(LedgerError::ContentTooLong);
    }
    let tag = comment_tag();
    let hashed = sha256(&content);
    let mut seeds: Vec<Vec<u8>> = Vec::new();
    seeds.push(clone_bytes(&author.key.bytes));
    seeds.push(hashed);
    seeds.push(clone_bytes(&post_address.bytes));
    proof {
        assert(seeds_view(seeds@) =~= seq![old(author).key@, hash_of(content@), post_address@]);
        assert(full_seeds(tag@, seeds_view(seeds@)) =~= comment_seeds_spec(
            old(author).key@,
            content@,
            post_address@,
        ));
    }
    let derived = derive_address(&tag, &seeds, program);
    let (comment_address, nonce) = match derived {
        None => {
            return Err(LedgerError::AddressMismatch);
        },
        Some(d) => d,
    };
    if comments.find(&comment_address).is_some() {
        return Err(LedgerError::DuplicateAddress);
    }
    if author.balance < residual {
        return Err(LedgerError::InsufficientBalance);
    }
    let returned = clone_address(&comment_address);
    let record = Comment {
        author: clone_address(&author.key),
        parent_post: clone_address(post_address),
        content,
        nonce,
    };
    let entry = Entry { address: comment_address, residual, record };
    let allocated = comments.allocate(entry);
    proof {
        assert(allocated is Ok);
    }
    author.balance = author.balance - residual;
    Ok(returned)
}

/// Closes a comment, returning its residual storage balance to the author.
/// Only the recorded author may close it, and the claimed address must pass
/// re-derivation from the author's own identity, the content hash and the
/// parent post. Closing a comment never touches the parent post's counters.
pub fn remove_comment(
    author: &mut Actor,
    claimed: &Address,
    comments: &mut Store<Comment>,
    program: &Address,
) -> (r: Result<(), LedgerError>)
    requires
        program@.len() == 32,
        old(comments).wf(),
        forall|k: int|
            0 <= k < old(comments).entries@.len() ==> old(comments).entries@[k].residual + old(
                author,
            ).balance <= u64::MAX,
    ensures
        final(comments).wf(),
        !old(author).signed ==> r is Err && r->Err_0 == LedgerError::NotSigner,
        old(author).signed && !old(comments).has_addr(claimed@) ==> r is Err && r->Err_0
            == LedgerError::AddressMismatch,
        ({
            let i = old(comments).index_of(claimed@);
            let e0 = old(comments).entries@[i];
            old(author).signed && old(comments).has_addr(claimed@) ==> if e0.record.author@ != old(
                author,
            ).key@ {
                r is Err && r->Err_0 == LedgerError::WrongOwner
            } else if !comment_addr_verified(
                old(author).key@,
                e0.record.content@,
                e0.record.parent_post@,
                e0.record.nonce,
                claimed@,
                program@,
            ) {
                r is Err && r->Err_0 == LedgerError::AddressMismatch
            } else {
                &&& r is Ok
                &&& final(comments).entries@ == old(comments).entries@.remove(i)
                &&& final(author).balance == old(author).balance + e0.residual
            }
        }),
        r is Err ==> final(comments).entries@ == old(comments).entries@ && *final(author) == *old(
            author,
        ),
        final(author).key == old(author).key && final(author).signed == old(author).signed,
{
    if !author.signed {
        return Err(LedgerError::NotSigner);
    }
    let found = comments.find(claimed);
    let i = match found {
        None => {
            return Err(LedgerError::AddressMismatch);
        },
        Some(i) => i,
    };
    proof {
        comments.lemma_index_unique(claimed@, i as int);
    }
    let entry = comments.get(i);
    if !address_eq(&entry.record.author, &author.key) {
        return Err(LedgerError::WrongOwner);
    }
    let tag = comment_tag();
    let hashed = sha256(&entry.record.content);
    let mut seeds: Vec<Vec<u8>> = Vec::new();
    seeds.push(clone_bytes(&author.key.bytes));
    seeds.push(hashed);
    seeds.push(clone_bytes(&entry.record.parent_post.bytes));
    let nonce = entry.record.nonce;
    proof {
        assert(seeds_view(seeds@) =~= seq![
            old(author).key@,
            hash_of(old(comments).entries@[i as int].record.content@),
            old(comments).entries@[i as int].record.parent_post@,
        ]);
    }
    if !verify_address(claimed, &tag, &seeds, nonce, program) {
        return Err(LedgerError::AddressMismatch);
    }
    let released = comments.release_at(i);
    author.balance = author.balance + released.residual;
    Ok(())
}

/// Adds a reaction to a post, bumping the matching counter. The post's
/// claimed address must pass re-derivation; the reaction's address is
/// derived from the author and the post alone, so a second live reaction by
/// the same author on the same post is a DuplicateAddress. A counter already
/// at its maximum rejects with CounterSaturated and stays unchanged. The
/// author pays the residual storage balance of the new record.
pub fn add_reaction(
    author: &mut Actor,
    post_address: &Address,
    post: &mut Post,
    kind: ReactionKind,
    residual: u64,
    reactions: &mut Store<Reaction>,
    program: &Address,
) -> (r: Result<Address, LedgerError>)
    requires
        program@.len() == 32,
        old(reactions).wf(),
    ensures
        final(reactions).wf(),
        !old(author).signed ==> r is Err && r->Err_0 == LedgerError::NotSigner,
        old(author).signed && !post_addr_verified(*old(post), post_address@, program@) ==> r is Err
            && r->Err_0 == LedgerError::AddressMismatch,
        ({
            let pda = pda_of(reaction_seeds_spec(old(author).key@, post_address@), program@);
            old(author).signed && post_addr_verified(*old(post), post_address@, program@) ==> if pda is None {
                r is Err && r->Err_0 == LedgerError::AddressMismatch
            } else if old(reactions).has_addr(pda.unwrap().0) {
                r is Err && r->Err_0 == LedgerError::DuplicateAddress
            } else if !can_bump(*old(post), kind) {
                r is Err && r->Err_0 == LedgerError::CounterSaturated
            } else if old(author).balance < residual {
                r is Err && r->Err_0 == LedgerError::InsufficientBalance
            } else {
                &&& r is Ok
                &&& r->Ok_0@ == pda.unwrap().0
                &&& *final(post) == bumped(*old(post), kind)
                &&& final(reactions).entries@.len() == old(reactions).entries@.len() + 1
                &&& final(reactions).entries@.drop_last() == old(reactions).entries@
                &&& final(reactions).entries@.last().address@ == pda.unwrap().0
                &&& final(reactions).entries@.last().residual == residual
                &&& final(reactions).entries@.last().record.author@ == old(author).key@
                &&& final(reactions).entries@.last().record.parent_post@ == post_address@
                &&& final(reactions).entries@.last().record.kind == kind
                &&& final(reactions).entries@.last().record.nonce == pda.unwrap().1
                &&& final(author).balance == old(author).balance - residual
            }
        }),
        r is Err ==> final(reactions).entries@ == old(reactions).entries@ && *final(post) == *old(
            post,
        ) && *final(author) == *old(author),
        final(author).key == old(author).key && final(author).signed == old(author).signed,
{
    if !author.signed {
        return Err(LedgerError::NotSigner);
    }
    if !check_post_address(post, post_address, program) {
        return Err(LedgerError::AddressMismatch);
    }
    let tag = reaction_tag();
    let mut seeds: Vec<Vec<u8>> = Vec::new();
    seeds.push(clone_bytes(&author.key.bytes));
    seeds.push(clone_bytes(&post_address.bytes));
    proof {
        assert(seeds_view(seeds@) =~= seq![old(author).key@, post_address@]);
        assert(full_seeds(tag@, seeds_view(seeds@)) =~= reaction_seeds_spec(
            old(author).key@,
            post_address@,
        ));
    }
    let derived = derive_address(&tag, &seeds, program);
    let (reaction_address, nonce) = match derived {
        None => {
            return Err(LedgerError::AddressMismatch);
        },
        Some(d) => d,
    };
    if reactions.find(&reaction_address).is_some() {
        return Err(LedgerError::DuplicateAddress);
    }
    match kind {
        ReactionKind::Like => {
            if post.likes == u64::MAX {
                return Err(LedgerError::CounterSaturated);
            }
        },
        ReactionKind::Dislike => {
            if post.dislikes == u64::MAX {
                return Err(LedgerError::CounterSaturated);
            }
        },
    }
    if author.balance < residual {
        return Err(LedgerError::InsufficientBalance);
    }
    let returned = clone_address(&reaction_address);
    let record = Reaction {
        author: clone_address(&author.key),
        parent_post: clone_address(post_address),
        kind,
        nonce,
    };
    let entry = Entry { address: reaction_address, residual, record };
    let allocated = reactions.allocate(entry);
    proof {
        assert(allocated is Ok);
    }
    match kind {
        ReactionKind::Like => {
            post.likes = post.likes + 1;
        },
        ReactionKind::Dislike => {
            post.dislikes = post.dislikes + 1;
        },
    }
    author.balance = author.balance - residual;
    Ok(returned)
}

/// Removes the caller's reaction from a post, dropping the matching counter
/// and returning the record's residual storage balance to the author. The
/// post's claimed address must pass re-derivation, the record must belong to
/// the caller, and the claimed reaction address must pass re-derivation from
/// the caller's own identity and the post. A counter already at zero rejects
/// with CounterUnderflow — a defensive guard against skew — and everything
/// stays unchanged.
pub fn remove_reaction(
    author: &mut Actor,
    post_address: &Address,
    post: &mut Post,
    claimed: &Address,
    reactions: &mut Store<Reaction>,
    program: &Address,
) -> (r: Result<(), LedgerError>)
    requires
        program@.len() == 32,
        old(reactions).wf(),
        forall|k: int|
            0 <= k < old(reactions).entries@.len() ==> old(reactions).entries@[k].residual + old(
                author,
            ).balance <= u64::MAX,
    ensures
        final(reactions).wf(),
        !old(author).signed ==> r is Err && r->Err_0 == LedgerError::NotSigner,
        old(author).signed && !post_addr_verified(*old(post), post_address@, program@) ==> r is Err
            && r->Err_0 == LedgerError::AddressMismatch,
        old(author).signed && post_addr_verified(*old(post), post_address@, program@) && !old(
            reactions,
        ).has_addr(claimed@) ==> r is Err && r->Err_0 == LedgerError::AddressMismatch,
        ({
            let i = old(reactions).index_of(claimed@);
            let e0 = old(reactions).entries@[i];
            old(author).signed && post_addr_verified(*old(post), post_address@, program@) && old(
                reactions,
            ).has_addr(claimed@) ==> if e0.record.author@ != old(author).key@ {
                r is Err && r->Err_0 == LedgerError::WrongOwner
            } else if !reaction_addr_verified(
                old(author).key@,
                post_address@,
                e0.record.nonce,
                claimed@,
                program@,
            ) {
                r is Err && r->Err_0 == LedgerError::AddressMismatch
            } else if !can_drop(*old(post), e0.record.kind) {
                r is Err && r->Err_0 == LedgerError::CounterUnderflow
            } else {
                &&& r is Ok
                &&& *final(post) == dropped(*old(post), e0.record.kind)
                &&& final(reactions).entries@ == old(reactions).entries@.remove(i)
                &&& final(author).balance == old(author).balance + e0.residual
            }
        }),
        r is Err ==> final(reactions).entries@ == old(reactions).entries@ && *final(post) == *old(
            post,
        ) && *final(author) == *old(author),
        final(author).key == old(author).key && final(author).signed == old(author).signed,
{
    if !author.signed {
        return Err(LedgerError::NotSigner);
    }
    if !check_post_address(post, post_address, program) {
        return Err(LedgerError::AddressMismatch);
    }
    let found = reactions.find(claimed);
    let i = match found {
        None => {
            return Err(LedgerError::AddressMismatch);
        },
        Some(i) => i,
    };
    proof {
        reactions.lemma_index_unique(claimed@, i as int);
    }
    let entry = reactions.get(i);
    if !address_eq(&entry.record.author, &author.key) {
        return Err(LedgerError::WrongOwner);
    }
    let tag = reaction_tag();
    let mut seeds: Vec<Vec<u8>> = Vec::new();
    seeds.push(clone_bytes(&author.key.bytes));
    seeds.push(clone_bytes(&post_address.bytes));
    let nonce = entry.record.nonce;
    let kind = entry.record.kind;
    proof {
        assert(seeds_view(seeds@) =~= seq![old(author).key@, post_address@]);
    }
    if !verify_address(claimed, &tag, &seeds, nonce, program) {
        return Err(LedgerError::AddressMismatch);
    }
    match kind {
        ReactionKind::Like => {
            if post.likes == 0 {
                return Err(LedgerError::CounterUnderflow);
            }
        },
        ReactionKind::Dislike => {
            if post.dislikes == 0 {
                return Err(LedgerError::CounterUnderflow);
            }
        },
    }
    let released = reactions.release_at(i);
    match kind {
        ReactionKind::Like => {
            post.likes = post.likes - 1;
        },
        ReactionKind::Dislike => {
            post.dislikes = post.dislikes - 1;
        },
    }
    author.balance = author.balance + released.residual;
    Ok(())
}

} // verus!
