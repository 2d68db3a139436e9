//! Image cache management: reuse a language's image while it is newer than
//! its build recipe, and otherwise build it and learn its id from the build
//! event stream.

use super::RunnerError;
use crate::config::DockerConfig;
use crate::langs::{lang_dir, LangInfo};
use vstd::prelude::*;
use vstd::string::StringExecFns;

verus! {

/// An image the runtime listed under a runner's tag.
#[derive(Debug)]
pub struct ImageRecord {
    pub id: String,
    /// Creation time, in whole seconds since the Unix epoch.
    pub created: i64,
}

/// How to build a language's image.
#[derive(Debug)]
pub struct BuildRequest {
    /// The directory holding the build recipe.
    pub context: String,
    pub tag: String,
    pub label_key: String,
    pub label_value: String,
}

/// What to do about a language's image.
#[derive(Debug)]
pub enum ImagePlan {
    Reuse(String),
    Build(BuildRequest),
}

/// The tag of a language's image.
pub open spec fn image_tag(name_prefix: Seq<char>, lang: Seq<char>) -> Seq<char> {
    name_prefix + lang
}

/// An image created at `created` seconds is newer than a recipe last
/// modified `recipe_nanos` nanoseconds after the Unix epoch.
pub open spec fn image_newer(created: int, recipe_nanos: int) -> bool {
    created * 1_000_000_000 > recipe_nanos
}

/// The id of the image that may be reused: the only image listed, when it is
/// newer than the recipe.
pub open spec fn reusable_image(listing: Seq<ImageRecord>, recipe_nanos: int) -> Option<Seq<char>> {
    if listing.len() == 1 && image_newer(listing[0].created as int, recipe_nanos) {
        Some(listing[0].id@)
    } else {
        None
    }
}

/// The tag under which a language's image is built and looked up.
pub fn image_tag_of(cfg: &DockerConfig, lang: &LangInfo) -> (tag: String)
    ensures
        tag@ == image_tag(cfg.name_prefix@, lang.name@),
{
    let mut tag = cfg.name_prefix.clone();
    tag.append(lang.name.as_str());
    tag
}

fn is_newer(created: i64, recipe_nanos: u128) -> (r: bool)
    ensures
        r == image_newer(created as int, recipe_nanos as int),
{
    if created <= 0 {
        assert(created * 1_000_000_000 <= 0) by (nonlinear_arith)
            requires
                created <= 0,
        ;
        false
    } else {
        let secs = created as u128;
        assert(secs * 1_000_000_000 < 0x1_0000_0000_0000_0000_0000_0000_0000) by (nonlinear_arith)
            requires
                0 < secs < 0x8000_0000_0000_0000,
        ;
        secs * 1_000_000_000 > recipe_nanos
    }
}

/// Decides whether a language's image can be reused: the runtime listed at
/// most one image under its tag, and it is reused only when it is newer than
/// the recipe, last modified `recipe_nanos` nanoseconds after the epoch.
pub fn plan_image(
    cfg: &DockerConfig,
    lang: &LangInfo,
    listing: &Vec<ImageRecord>,
    recipe_nanos: u128,
) -> (r: Result<ImagePlan, RunnerError>)
    ensures
        r is Err <==> listing@.len() > 1,
        r matches Err(e) ==> e == RunnerError::DuplicateImages,
        r matches Ok(ImagePlan::Reuse(id)) ==> reusable_image(listing@, recipe_nanos as int) == Some(
            id@,
        ),
        r matches Ok(ImagePlan::Build(b)) ==> {
            &&& reusable_image(listing@, recipe_nanos as int) is None
            &&& b.tag@ == image_tag(cfg.name_prefix@, lang.name@)
            &&& b.context@ == lang_dir(lang.name@)
            &&& b.label_key@ == cfg.image_label@
            &&& b.label_value@ == lang.name@
        },
{
    if listing.len() > 1 {
        return Err(RunnerError::DuplicateImages);
    }
    if listing.len() == 1 && is_newer(listing[0].created, recipe_nanos) {
        return Ok(ImagePlan::Reuse(listing[0].id.clone()));
    }
    let mut context = String::from_str("languages/");
    context.append(lang.name.as_str());
    Ok(
        ImagePlan::Build(
            BuildRequest {
                context,
                tag: image_tag_of(cfg, lang),
                label_key: cfg.image_label.clone(),
                label_value: lang.name.clone(),
            },
        ),
    )
}

/// Idempotent resolution: once a resolution settles on an image (one it
/// reused, or one it built that the runtime stamped after the recipe was last
/// modified), a second resolution against the unchanged recipe, with the
/// runtime listing that image, reuses the very same image and builds nothing.
pub proof fn lemma_resolution_idempotent(first: Seq<ImageRecord>, recipe_nanos: int, built: ImageRecord)
    requires
        first.len() <= 1,
        reusable_image(first, recipe_nanos) is None ==> image_newer(built.created as int, recipe_nanos),
    ensures
        ({
            let settled = if reusable_image(first, recipe_nanos) is Some {
                first[0]
            } else {
                built
            };
            &&& reusable_image(first, recipe_nanos) matches Some(id) ==> id == settled.id@
            &&& reusable_image(seq![settled], recipe_nanos) == Some(settled.id@)
        }),
{
}

/// Staleness: an image created no later than the recipe's last modification
/// is never reused, so the next resolution builds a new one.
pub proof fn lemma_stale_image_rebuilt(existing: ImageRecord, recipe_nanos: int)
    requires
        existing.created * 1_000_000_000 <= recipe_nanos,
    ensures
        reusable_image(seq![existing], recipe_nanos) is None,
{
}

/// One event of an image build stream.
#[derive(Debug)]
pub enum BuildEvent {
    Update(String),
    Error(String),
    Digest(String),
    PullStatus(Option<String>),
}

/// The image id carried by the last digest event of `events`, if any.
pub open spec fn last_digest(events: Seq<BuildEvent>) -> Option<Seq<char>>
    decreases events.len(),
{
    if events.len() == 0 {
        None
    } else {
        match events.last() {
            BuildEvent::Digest(id) => Some(id@),
            _ => last_digest(events.drop_last()),
        }
    }
}

/// The image a finished build produced: that of its last digest event, when
/// that id is not empty.
pub open spec fn built_image(events: Seq<BuildEvent>) -> Option<Seq<char>> {
    match last_digest(events) {
        Some(id) => if id.len() > 0 {
            Some(id)
        } else {
            None
        },
        None => None,
    }
}

/// Follows an image build stream, which must be drained whole: only its last
/// digest event names the image built.
pub struct BuildTracker {
    image_id: Option<String>,
    events: Ghost<Seq<BuildEvent>>,
}

impl BuildTracker {
    #[verifier::type_invariant]
    spec fn inv(self) -> bool {
        match self.image_id {
            Some(id) => last_digest(self.events@) == Some(id@),
            None => last_digest(self.events@) is None,
        }
    }

    /// The events observed so far.
    pub closed spec fn events(self) -> Seq<BuildEvent> {
        self.events@
    }

    pub fn new() -> (r: BuildTracker)
        ensures
            r.events() == Seq::<BuildEvent>::empty(),
    {
        BuildTracker { image_id: None, events: Ghost(Seq::empty()) }
    }

    /// Takes in the next event of the stream; progress, errors and pull
    /// status do not stop the build.
    pub fn observe(&mut self, event: BuildEvent)
        ensures
            final(self).events() == old(self).events().push(event),
    {
        let mut previous = BuildTracker::new();
        core::mem::swap(self, &mut previous);
        proof {
            use_type_invariant(&previous);
        }
        let BuildTracker { image_id, events } = previous;
        let ghost all = events@.push(event);
        proof {
            assert(all.drop_last() =~= events@);
        }
        let image_id = match event {
            BuildEvent::Digest(id) => Some(id),
            _ => image_id,
        };
        *self = BuildTracker { image_id, events: Ghost(all) };
    }

    /// The id of the image built, once the stream is exhausted; a build whose
    /// stream named no image failed.
    pub fn finish(self) -> (r: Result<String, RunnerError>)
        ensures
            r matches Ok(id) ==> built_image(self.events()) == Some(id@),
            r is Err <==> built_image(self.events()) is None,
            r matches Err(e) ==> e == RunnerError::NoImageDigest,
    {
        proof {
            use_type_invariant(&self);
        }
        match self.image_id {
            Some(id) => if id.as_str().is_empty() {
                Err(RunnerError::NoImageDigest)
            } else {
                Ok(id)
            },
            None => Err(RunnerError::NoImageDigest),
        }
    }
}

} // verus!
