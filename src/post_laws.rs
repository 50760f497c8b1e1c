//! Laws of the post flows, over a model of the post rows (each post id with
//! its image id) and of the blob store (the keys it holds).
use vstd::prelude::*;
use crate::ids::Uuid;
use crate::posts::{PostAction, PostEvent, PostFlow};

verus! {

/// Each post id with the image id of its row.
pub type PostImages = Map<Uuid, Uuid>;

/// The keys the blob store holds.
pub type Blobs = Set<Uuid>;

/// Every post that has an image has its blob in the store.
pub open spec fn images_intact(db: PostImages, blobs: Blobs) -> bool {
    forall|p: Uuid| #[trigger] db.contains_key(p) && !db[p].is_nil_spec() ==> blobs.contains(db[p])
}

/// The same, for every post but `id`.
pub open spec fn images_intact_except(db: PostImages, blobs: Blobs, id: Uuid) -> bool {
    forall|p: Uuid|
        #[trigger] db.contains_key(p) && p != id && !db[p].is_nil_spec() ==> blobs.contains(db[p])
}

/// No two posts share an image.
pub open spec fn images_unshared(db: PostImages) -> bool {
    forall|p: Uuid, q: Uuid|
        #[trigger] db.contains_key(p) && #[trigger] db.contains_key(q) && p != q
            && !db[p].is_nil_spec() ==> db[p] != db[q]
}

/// No post points at `key`.
pub open spec fn unused_key(db: PostImages, key: Uuid) -> bool {
    forall|p: Uuid| #[trigger] db.contains_key(p) ==> db[p] != key
}

impl PostFlow {
    /// What holds of the stores while the flow is in this state. Between
    /// requests both stores are intact and no two posts share an image. The
    /// key drawn for a new image is used by no post (a fresh random UUID).
    pub open spec fn intact_with(self, db: PostImages, blobs: Blobs) -> bool {
        &&& images_unshared(db)
        &&& match self {
            PostFlow::ImageFetching { key, .. } => images_intact(db, blobs) && unused_key(db, key)
                && !key.is_nil_spec(),
            PostFlow::Uploading { post, key, .. } => images_intact(db, blobs) && unused_key(db, key)
                && !key.is_nil_spec() && db.contains_key(post.id) && db[post.id] == post.image_id,
            PostFlow::Repointing { post, old_image } => images_intact(db, blobs) && unused_key(
                db,
                post.image_id,
            ) && !post.image_id.is_nil_spec() && blobs.contains(post.image_id) && db.contains_key(
                post.id,
            ) && db[post.id] == old_image,
            PostFlow::UpdateStoring { post } => images_intact(db, blobs) && db.contains_key(post.id)
                && db[post.id] == post.image_id,
            PostFlow::RollingBack { key } => images_intact(db, blobs) && unused_key(db, key),
            PostFlow::DiscardingOld { old_image, .. } => images_intact(db, blobs) && unused_key(
                db,
                old_image,
            ),
            PostFlow::DiscardingImage { id, image } => images_intact(db, blobs) && db.contains_key(id)
                && db[id] == image,
            PostFlow::Erasing { id, image } => images_intact_except(db, blobs, id) && (
            image.is_nil_spec() ==> images_intact(db, blobs)),
            _ => images_intact(db, blobs),
        }
    }

    /// `ev` is what a faithful read of `db` answers to the state's request.
    pub open spec fn answered_from(self, ev: PostEvent, db: PostImages) -> bool {
        match ev {
            PostEvent::Found(p) => db.contains_key(p.id) && db[p.id] == p.image_id,
            _ => true,
        }
    }

    /// The stores after the step that `self` asks for went as `ev` says, with
    /// nothing else writing to them. A failed blob upload or removal may or
    /// may not have taken effect; a failed row write or removal did not.
    pub open spec fn store_effect(
        self,
        ev: PostEvent,
        db: PostImages,
        blobs: Blobs,
        db2: PostImages,
        blobs2: Blobs,
    ) -> bool {
        match self {
            PostFlow::Uploading { key, .. } => db2 == db && (blobs2 == blobs.insert(key) || (
            !ev.succeeded() && blobs2 == blobs)),
            PostFlow::UpdateStoring { post } => blobs2 == blobs && (if ev is Stored {
                db2 == db.insert(post.id, post.image_id)
            } else {
                db2 == db
            }),
            PostFlow::Repointing { post, .. } => blobs2 == blobs && (if ev is Stored {
                db2 == db.insert(post.id, post.image_id)
            } else {
                db2 == db
            }),
            PostFlow::RollingBack { key } => db2 == db && (blobs2 == blobs.remove(key) || (
            !ev.succeeded() && blobs2 == blobs)),
            PostFlow::DiscardingOld { old_image, .. } => db2 == db && (blobs2 == blobs.remove(
                old_image,
            ) || (!ev.succeeded() && blobs2 == blobs)),
            PostFlow::DiscardingImage { image, .. } => db2 == db && (blobs2 == blobs.remove(image)
                || (!ev.succeeded() && blobs2 == blobs)),
            PostFlow::Erasing { id, .. } => blobs2 == blobs && (if ev.succeeded() {
                db2 == db.remove(id)
            } else {
                db2 == db
            }),
            _ => db2 == db && blobs2 == blobs,
        }
    }

    /// The outcomes of a delete step that image integrity cannot survive: a
    /// blob removal reported as failed that took effect all the same, and a
    /// failed row removal after the post's blob was removed.
    pub open spec fn breaks_images(self, ev: PostEvent, blobs: Blobs, blobs2: Blobs) -> bool {
        ||| (self matches PostFlow::Erasing { image, .. } && !image.is_nil_spec() && !ev.succeeded())
        ||| (self is DiscardingImage && !ev.succeeded() && blobs2 != blobs)
    }

    /// The author of the post the flow works on, once it is known.
    pub open spec fn author(self) -> Option<Uuid> {
        match self {
            PostFlow::UpdateStoring { post } => Some(post.user_id),
            PostFlow::Uploading { post, .. } => Some(post.user_id),
            PostFlow::Repointing { post, .. } => Some(post.user_id),
            _ => None,
        }
    }
}

/// Image integrity: every step of an update, image attach or delete keeps
/// each post that has an image pointing at a blob that exists, and no two
/// posts sharing one; the new image is uploaded before the row points at it,
/// and the old one is removed only after. A delete removes the blob first,
/// then the row, so two failures of a delete can break it, and are left out:
/// a blob removal reported as failed that took effect all the same, and a
/// failed row removal after the blob was removed.
pub proof fn image_integrity_kept(
    flow: PostFlow,
    ev: PostEvent,
    db: PostImages,
    blobs: Blobs,
    db2: PostImages,
    blobs2: Blobs,
)
    requires
        flow.intact_with(db, blobs),
        flow.answered_from(ev, db),
        flow.store_effect(ev, db, blobs, db2, blobs2),
        !flow.breaks_images(ev, blobs, blobs2),
    ensures
        flow.next(ev).intact_with(db2, blobs2),
{
    match flow {
        PostFlow::Uploading { post, key, .. } => {
            assert forall|p: Uuid| #[trigger] db2.contains_key(p) && !db2[p].is_nil_spec() implies blobs2.contains(
                db2[p],
            ) by {
                assert(blobs.contains(db[p]));
            }
        },
        PostFlow::UpdateStoring { post } => {
            if ev is Stored {
                assert(db2 =~= db);
            }
        },
        PostFlow::Repointing { post, old_image } => {
            if ev is Stored {
                assert forall|p: Uuid|
                    #[trigger] db2.contains_key(p) && !db2[p].is_nil_spec() implies blobs2.contains(
                    db2[p],
                ) by {
                    if p != post.id {
                        assert(db.contains_key(p));
                    }
                }
                assert forall|p: Uuid, q: Uuid|
                    #[trigger] db2.contains_key(p) && #[trigger] db2.contains_key(q) && p != q
                        && !db2[p].is_nil_spec() implies db2[p] != db2[q] by {
                    if p == post.id {
                        assert(db.contains_key(q));
                    } else if q == post.id {
                        assert(db.contains_key(p));
                    } else {
                        assert(db.contains_key(p) && db.contains_key(q));
                    }
                }
                if !old_image.is_nil_spec() {
                    assert forall|p: Uuid| #[trigger] db2.contains_key(p) implies db2[p] != old_image by {
                        if p != post.id {
                            assert(db.contains_key(p));
                            assert(db[p] != db[post.id]);
                        }
                    }
                }
            }
        },
        PostFlow::RollingBack { key } => {
            assert forall|p: Uuid| #[trigger] db2.contains_key(p) && !db2[p].is_nil_spec() implies blobs2.contains(
                db2[p],
            ) by {
                assert(blobs.contains(db[p]));
                assert(db[p] != key);
            }
        },
        PostFlow::DiscardingOld { old_image, .. } => {
            assert forall|p: Uuid| #[trigger] db2.contains_key(p) && !db2[p].is_nil_spec() implies blobs2.contains(
                db2[p],
            ) by {
                assert(blobs.contains(db[p]));
                assert(db[p] != old_image);
            }
        },
        PostFlow::DiscardingImage { id, image } => {
            if ev.succeeded() {
                assert forall|p: Uuid|
                    #[trigger] db2.contains_key(p) && p != id && !db2[p].is_nil_spec() implies blobs2.contains(
                    db2[p],
                ) by {
                    assert(blobs.contains(db[p]));
                    if !image.is_nil_spec() {
                        assert(db[p] != db[id]);
                    }
                }
            } else {
                assert forall|p: Uuid|
                    #[trigger] db2.contains_key(p) && !db2[p].is_nil_spec() implies blobs2.contains(
                    db2[p],
                ) by {
                    assert(blobs.contains(db[p]));
                    if p != id && !image.is_nil_spec() {
                        assert(db[p] != db[id]);
                    }
                }
            }
        },
        PostFlow::Erasing { id, image } => {
            if ev.succeeded() {
                assert forall|p: Uuid| #[trigger] db2.contains_key(p) && !db2[p].is_nil_spec() implies blobs2.contains(
                    db2[p],
                ) by {
                    assert(db.contains_key(p) && p != id);
                }
                assert forall|p: Uuid, q: Uuid|
                    #[trigger] db2.contains_key(p) && #[trigger] db2.contains_key(q) && p != q
                        && !db2[p].is_nil_spec() implies db2[p] != db2[q] by {
                    assert(db.contains_key(p) && db.contains_key(q));
                }
            }
        },
        PostFlow::DeleteFetching { id } => {
            if let PostEvent::Found(p) = ev {
                if p.image_id.is_nil_spec() {
                    assert(images_intact_except(db2, blobs2, p.id));
                }
            }
        },
        _ => {},
    }
}

/// The state after the flow has been told each of `evs` in turn.
pub open spec fn after_post_events(flow: PostFlow, evs: Seq<PostEvent>) -> PostFlow
    decreases evs.len(),
{
    if evs.len() == 0 {
        flow
    } else {
        after_post_events(flow.next(evs[0]), evs.drop_first())
    }
}

/// `dbs` and `blobs` are the stores before the flow's first step and after
/// each step that went as `evs` says, with faithful reads, nothing else
/// writing, and none of the outcomes that image integrity cannot survive.
pub open spec fn store_trace(
    flow: PostFlow,
    evs: Seq<PostEvent>,
    dbs: Seq<PostImages>,
    blobs: Seq<Blobs>,
) -> bool
    decreases evs.len(),
{
    &&& dbs.len() == evs.len() + 1
    &&& blobs.len() == evs.len() + 1
    &&& evs.len() > 0 ==> {
        &&& flow.answered_from(evs[0], dbs[0])
        &&& flow.store_effect(evs[0], dbs[0], blobs[0], dbs[1], blobs[1])
        &&& !flow.breaks_images(evs[0], blobs[0], blobs[1])
        &&& store_trace(flow.next(evs[0]), evs.drop_first(), dbs.drop_first(), blobs.drop_first())
    }
}

/// Image integrity over a whole run: from intact stores, a flow that is told
/// any sequence of outcomes (save those two) leaves them intact whenever it
/// is over, successful or not.
pub proof fn images_stay_intact(
    flow: PostFlow,
    evs: Seq<PostEvent>,
    dbs: Seq<PostImages>,
    blobs: Seq<Blobs>,
)
    requires
        flow.intact_with(dbs[0], blobs[0]),
        store_trace(flow, evs, dbs, blobs),
    ensures
        after_post_events(flow, evs).intact_with(dbs.last(), blobs.last()),
        after_post_events(flow, evs) is Finished ==> images_intact(dbs.last(), blobs.last()),
    decreases evs.len(),
{
    if evs.len() > 0 {
        image_integrity_kept(flow, evs[0], dbs[0], blobs[0], dbs[1], blobs[1]);
        images_stay_intact(flow.next(evs[0]), evs.drop_first(), dbs.drop_first(), blobs.drop_first());
        assert(dbs.drop_first().last() == dbs.last());
        assert(blobs.drop_first().last() == blobs.last());
    }
}

/// Update scope: an update writes the stored post with only its title and
/// body replaced; id, image, author and creation time are unchanged.
pub proof fn update_scope(flow: PostFlow, ev: PostEvent)
    requires
        flow is UpdateFetching,
        ev is Found,
    ensures
        flow.next(ev) matches PostFlow::UpdateStoring { post } && post.title
            == flow->UpdateFetching_title && post.body == flow->UpdateFetching_body && post.id
            == ev->Found_0.id && post.image_id == ev->Found_0.image_id && post.user_id
            == ev->Found_0.user_id && post.created_at == ev->Found_0.created_at,
        forall|a: PostAction|
            #![auto]
            flow.next(ev).asks(a) ==> a == (PostAction::Store { post: flow.next(ev)->UpdateStoring_post }),
{
}

/// Authorship is immutable: once a flow has read a post, every later state
/// and every row it writes keep that post's author.
pub proof fn authorship_kept(flow: PostFlow, ev: PostEvent)
    ensures
        (flow is UpdateFetching || flow is ImageFetching) && ev is Found && !(flow.next(
            ev,
        ) is Finished) ==> flow.next(ev).author() == Some(ev->Found_0.user_id),
        flow.author() is Some && !(flow.next(ev) is Finished) && !(flow.next(ev) is RollingBack)
            && !(flow.next(ev) is DiscardingOld) ==> flow.next(ev).author() == flow.author(),
        forall|a: PostAction|
            flow.asks(a) && (a matches PostAction::Store { post }) ==> flow.author() == Some(
                a->post.user_id,
            ),
{
}

} // verus!
