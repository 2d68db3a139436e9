//! Per-language runners and the decisions taken while setting them up.

pub mod exec;
pub mod image;
pub mod network;

use crate::config::DockerConfig;
use crate::langs::LangInfo;
use vstd::prelude::*;
use vstd::string::StringExecFns;

verus! {

/// Why a runner or the registry could not be set up.
#[derive(Clone, Copy, Debug, PartialEq, Eq, Structural)]
pub enum RunnerError {
    /// More than one image carries a runner's tag.
    DuplicateImages,
    /// More than one network carries the deployment's network name.
    DuplicateNetworks,
    /// The runtime listed the network without an id.
    MissingNetworkId,
    /// An image build ended without naming the image it built.
    NoImageDigest,
    /// Two runners serve the same language.
    DuplicateLanguage,
}

/// Whole logical CPUs granted to each ephemeral container.
pub const CONTAINER_CPUS: u32 = 1;

/// Memory granted to each ephemeral container, in bytes.
pub const CONTAINER_MEMORY_BYTES: u64 = 16384 * 1024;

/// A language bound to its resolved image and the shared network: the
/// template from which its ephemeral containers are made.
#[derive(Debug)]
pub struct Runner {
    pub image_id: String,
    pub network_id: String,
    pub container_name_prefix: String,
    pub lang: LangInfo,
}

/// How to create one ephemeral container.
#[derive(Debug)]
pub struct ContainerSpec {
    pub name: String,
    pub image: String,
    pub network: String,
    pub cpus: u32,
    pub memory_bytes: u64,
    pub privileged: bool,
}

/// The name of a container made from a runner: its prefix, its language and
/// a suffix that is fresh for every container.
pub open spec fn container_name(prefix: Seq<char>, lang: Seq<char>, suffix: Seq<char>) -> Seq<char> {
    prefix + lang + suffix
}

/// Name uniqueness: two containers of one language get the same name only
/// when they were given the same suffix.
pub proof fn lemma_container_names_unique(
    prefix: Seq<char>,
    lang: Seq<char>,
    suffix1: Seq<char>,
    suffix2: Seq<char>,
)
    ensures
        container_name(prefix, lang, suffix1) == container_name(prefix, lang, suffix2)
            <==> suffix1 == suffix2,
{
    let n1 = container_name(prefix, lang, suffix1);
    let n2 = container_name(prefix, lang, suffix2);
    let k = prefix.len() + lang.len();
    if n1 == n2 {
        assert(suffix1 =~= n1.subrange(k as int, n1.len() as int));
        assert(suffix2 =~= n2.subrange(k as int, n2.len() as int));
    }
}

/// Across languages too: with suffixes of one length, as UUID texts are,
/// two containers of a deployment share a name only when they share both
/// the language and the suffix.
pub proof fn lemma_container_names_unique_across_languages(
    prefix: Seq<char>,
    lang1: Seq<char>,
    lang2: Seq<char>,
    suffix1: Seq<char>,
    suffix2: Seq<char>,
)
    requires
        suffix1.len() == suffix2.len(),
    ensures
        container_name(prefix, lang1, suffix1) == container_name(prefix, lang2, suffix2)
            <==> lang1 == lang2 && suffix1 == suffix2,
{
    let n1 = container_name(prefix, lang1, suffix1);
    let n2 = container_name(prefix, lang2, suffix2);
    if n1 == n2 {
        let p = prefix.len() as int;
        assert(lang1 =~= n1.subrange(p, p + lang1.len()));
        assert(lang2 =~= n2.subrange(p, p + lang2.len()));
        let k = p + lang1.len();
        assert(suffix1 =~= n1.subrange(k, n1.len() as int));
        assert(suffix2 =~= n2.subrange(k, n2.len() as int));
    }
}

/// Length of a UUID in its hyphenated text form.
pub const UUID_TEXT_LEN: usize = 36;

/// Relies on `uuid::Uuid::now_v7` and its `Display`: a time-ordered UUID,
/// written as 36 characters in the hyphenated form.
#[verifier::external_body]
fn fresh_uuid_text() -> (text: String)
    ensures
        text@.len() == UUID_TEXT_LEN,
{
    uuid::Uuid::now_v7().to_string()
}

impl Runner {
    /// A runner for `lang` that uses the given image and network.
    pub fn new(cfg: &DockerConfig, lang: &LangInfo, network_id: &str, image_id: String) -> (r: Runner)
        ensures
            r.image_id@ == image_id@,
            r.network_id@ == network_id@,
            r.container_name_prefix@ == cfg.container_name_prefix@,
            r.lang.name@ == lang.name@,
            r.lang.lang_type == lang.lang_type,
    {
        Runner {
            image_id,
            network_id: String::from_str(network_id),
            container_name_prefix: cfg.container_name_prefix.clone(),
            lang: LangInfo { name: lang.name.clone(), lang_type: lang.lang_type },
        }
    }

    /// The container to create for one execution, named with `suffix`.
    pub fn container_spec(&self, suffix: &str) -> (spec: ContainerSpec)
        ensures
            spec.name@ == container_name(self.container_name_prefix@, self.lang.name@, suffix@),
            spec.image@ == self.image_id@,
            spec.network@ == self.network_id@,
            spec.cpus == CONTAINER_CPUS,
            spec.memory_bytes == CONTAINER_MEMORY_BYTES,
            !spec.privileged,
    {
        let mut name = self.container_name_prefix.clone();
        name.append(self.lang.name.as_str());
        name.append(suffix);
        ContainerSpec {
            name,
            image: self.image_id.clone(),
            network: self.network_id.clone(),
            cpus: CONTAINER_CPUS,
            memory_bytes: CONTAINER_MEMORY_BYTES,
            privileged: false,
        }
    }

    /// The container to create for a new execution, under a fresh
    /// time-ordered UUID suffix.
    pub fn new_container(&self) -> (spec: ContainerSpec)
        ensures
            exists|suffix: Seq<char>|
                suffix.len() == UUID_TEXT_LEN && spec.name@ == container_name(
                    self.container_name_prefix@,
                    self.lang.name@,
                    suffix,
                ),
            spec.image@ == self.image_id@,
            spec.network@ == self.network_id@,
            spec.cpus == CONTAINER_CPUS,
            spec.memory_bytes == CONTAINER_MEMORY_BYTES,
            !spec.privileged,
    {
        let suffix = fresh_uuid_text();
        self.container_spec(suffix.as_str())
    }
}

/// No two runners of `runners` serve languages of the same name.
pub open spec fn runner_names_unique(runners: Seq<Runner>) -> bool {
    forall|i: int, j: int|
        0 <= i < runners.len() && 0 <= j < runners.len() && i != j ==> #[trigger] runners[i].lang.name@
            != #[trigger] runners[j].lang.name@
}

/// The runners by language name: built once at startup, only read afterwards.
#[derive(Debug)]
pub struct RunnerRegistry {
    runners: Vec<Runner>,
}

impl RunnerRegistry {
    #[verifier::type_invariant]
    spec fn inv(self) -> bool {
        runner_names_unique(self.runners@)
    }

    /// The runners, in the order they were registered.
    pub closed spec fn entries(self) -> Seq<Runner> {
        self.runners@
    }

    /// Registers one runner per language, refusing two for the same language.
    pub fn new(runners: Vec<Runner>) -> (r: Result<RunnerRegistry, RunnerError>)
        ensures
            r matches Ok(reg) ==> reg.entries() == runners@,
            r is Ok <==> runner_names_unique(runners@),
            r matches Err(e) ==> e == RunnerError::DuplicateLanguage,
    {
        let n = runners.len();
        let mut i: usize = 0;
        while i < n
            invariant
                n == runners@.len(),
                i <= n,
                forall|a: int, b: int|
                    0 <= a < i && 0 <= b < n && a != b ==> #[trigger] runners@[a].lang.name@
                        != #[trigger] runners@[b].lang.name@,
            decreases n - i,
        {
            let mut j: usize = 0;
            while j < n
                invariant
                    n == runners@.len(),
                    i < n,
                    j <= n,
                    forall|a: int, b: int|
                        0 <= a < i && 0 <= b < n && a != b ==> #[trigger] runners@[a].lang.name@
                            != #[trigger] runners@[b].lang.name@,
                    forall|b: int|
                        0 <= b < j && i != b ==> runners@[i as int].lang.name@
                            != #[trigger] runners@[b].lang.name@,
                decreases n - j,
            {
                if i != j && runners[i].lang.name == runners[j].lang.name {
                    return Err(RunnerError::DuplicateLanguage);
                }
                j = j + 1;
            }
            i = i + 1;
        }
        Ok(RunnerRegistry { runners })
    }

    /// The runner of the language called `name`, if one is registered.
    pub fn get(&self, name: &String) -> (r: Option<&Runner>)
        ensures
            r matches Some(runner) ==> runner.lang.name@ == name@ && exists|i: int|
                0 <= i < self.entries().len() && self.entries()[i] == *runner,
            r is None ==> forall|i: int|
                0 <= i < self.entries().len() ==> #[trigger] self.entries()[i].lang.name@ != name@,
    {
        let mut i: usize = 0;
        while i < self.runners.len()
            invariant
                i <= self.runners@.len(),
                forall|k: int| 0 <= k < i ==> #[trigger] self.runners@[k].lang.name@ != name@,
            decreases self.runners@.len() - i,
        {
            if self.runners[i].lang.name == *name {
                return Some(&self.runners[i]);
            }
            i = i + 1;
        }
        None
    }

    /// How many languages have a runner.
    pub fn len(&self) -> (n: usize)
        ensures
            n == self.entries().len(),
    {
        self.runners.len()
    }
}

} // verus!
