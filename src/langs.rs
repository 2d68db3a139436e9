//! The supported languages and the assets each one needs.

use vstd::prelude::*;
use vstd::string::StringExecFns;

verus! {

/// The kind of a language; only scripting languages run generators.
#[derive(Clone, Copy, Debug, PartialEq, Eq, Structural)]
pub enum LangType {
    Scripting,
    Compiled,
    Config,
    Markup,
}

/// A supported language, identified by its directory name.
#[derive(Debug)]
pub struct LangInfo {
    pub name: String,
    pub lang_type: LangType,
}

/// Which of a language's required assets are present on disk.
#[derive(Clone, Copy, Debug)]
pub struct LangAssets {
    pub is_dir: bool,
    pub dockerfile: bool,
    pub generator_template: bool,
    pub runner_template: bool,
    pub config: bool,
}

/// Why a language directory does not describe a usable language.
#[derive(Clone, Copy, Debug, PartialEq, Eq, Structural)]
pub enum LangError {
    MissingDirectory,
    MissingDockerfile,
    MissingGeneratorTemplate,
    MissingRunnerTemplate,
    MissingConfig,
    DuplicateName,
}

/// The directory that holds a language's assets.
pub open spec fn lang_dir(name: Seq<char>) -> Seq<char> {
    "languages/"@ + name
}

/// The first asset that is missing, checked in the order the directory, the
/// recipe, the two templates and the configuration.
pub open spec fn first_missing(a: LangAssets) -> Option<LangError> {
    if !a.is_dir {
        Some(LangError::MissingDirectory)
    } else if !a.dockerfile {
        Some(LangError::MissingDockerfile)
    } else if !a.generator_template {
        Some(LangError::MissingGeneratorTemplate)
    } else if !a.runner_template {
        Some(LangError::MissingRunnerTemplate)
    } else if !a.config {
        Some(LangError::MissingConfig)
    } else {
        None
    }
}

fn lang_file(name: &String, file: &str) -> (path: String)
    ensures
        path@ == lang_dir(name@) + "/"@ + file@,
{
    let mut path = String::from_str("languages/");
    path.append(name.as_str());
    path.append("/");
    path.append(file);
    path
}

impl LangInfo {
    /// A language of the given kind under the given name.
    pub fn new(name: &str, lang_type: LangType) -> (r: LangInfo)
        ensures
            r.name@ == name@,
            r.lang_type == lang_type,
    {
        LangInfo { name: String::from_str(name), lang_type }
    }

    /// Checks that a language directory holds every asset a language needs.
    pub fn check_assets(assets: &LangAssets) -> (r: Result<(), LangError>)
        ensures
            r matches Err(e) ==> first_missing(*assets) == Some(e),
            r is Ok <==> first_missing(*assets) is None,
    {
        if !assets.is_dir {
            Err(LangError::MissingDirectory)
        } else if !assets.dockerfile {
            Err(LangError::MissingDockerfile)
        } else if !assets.generator_template {
            Err(LangError::MissingGeneratorTemplate)
        } else if !assets.runner_template {
            Err(LangError::MissingRunnerTemplate)
        } else if !assets.config {
            Err(LangError::MissingConfig)
        } else {
            Ok(())
        }
    }

    /// The build recipe of the language's image.
    pub fn dockerfile_path(&self) -> (path: String)
        ensures
            path@ == lang_dir(self.name@) + "/"@ + "Dockerfile"@,
    {
        lang_file(&self.name, "Dockerfile")
    }

    /// The template of the harness that runs a generator.
    pub fn generator_path(&self) -> (path: String)
        ensures
            path@ == lang_dir(self.name@) + "/"@ + "generator.hbs"@,
    {
        lang_file(&self.name, "generator.hbs")
    }

    /// The name the generator harness template is registered under.
    pub fn generator_template(&self) -> (name: String)
        ensures
            name@ == self.name@ + "/generator"@,
    {
        let mut name = self.name.clone();
        name.append("/generator");
        name
    }

    /// The name the solution harness template is registered under.
    pub fn runner_template(&self) -> (name: String)
        ensures
            name@ == self.name@ + "/runner"@,
    {
        let mut name = self.name.clone();
        name.append("/runner");
        name
    }

    /// The template of the harness that runs a solution.
    pub fn runner_path(&self) -> (path: String)
        ensures
            path@ == lang_dir(self.name@) + "/"@ + "runner.hbs"@,
    {
        lang_file(&self.name, "runner.hbs")
    }
}

/// No two languages of `langs` share a name.
pub open spec fn names_unique(langs: Seq<LangInfo>) -> bool {
    forall|i: int, j: int|
        0 <= i < langs.len() && 0 <= j < langs.len() && i != j ==> #[trigger] langs[i].name@
            != #[trigger] langs[j].name@
}

/// The supported languages, each under a name of its own.
#[derive(Debug)]
pub struct Languages {
    langs: Vec<LangInfo>,
}

impl Languages {
    #[verifier::type_invariant]
    spec fn inv(self) -> bool {
        names_unique(self.langs@)
    }

    /// The languages, in the order they were found.
    pub closed spec fn entries(self) -> Seq<LangInfo> {
        self.langs@
    }

    /// Collects languages, refusing two that share a name.
    pub fn new(langs: Vec<LangInfo>) -> (r: Result<Languages, LangError>)
        ensures
            r matches Ok(l) ==> l.entries() == langs@,
            r is Ok <==> names_unique(langs@),
            r matches Err(e) ==> e == LangError::DuplicateName,
    {
        let n = langs.len();
        let mut i: usize = 0;
        while i < n
            invariant
                n == langs@.len(),
                i <= n,
                forall|a: int, b: int|
                    0 <= a < i && 0 <= b < n && a != b ==> #[trigger] langs@[a].name@
                        != #[trigger] langs@[b].name@,
            decreases n - i,
        {
            let mut j: usize = 0;
            while j < n
                invariant
                    n == langs@.len(),
                    i < n,
                    j <= n,
                    forall|a: int, b: int|
                        0 <= a < i && 0 <= b < n && a != b ==> #[trigger] langs@[a].name@
                            != #[trigger] langs@[b].name@,
                    forall|b: int| 0 <= b < j && i != b ==> langs@[i as int].name@ != #[trigger] langs@[b].name@,
                decreases n - j,
            {
                if i != j && langs[i].name == langs[j].name {
                    return Err(LangError::DuplicateName);
                }
                j = j + 1;
            }
            i = i + 1;
        }
        Ok(Languages { langs })
    }

    /// The languages, in the order they were found.
    pub fn list(&self) -> (r: &Vec<LangInfo>)
        ensures
            r@ == self.entries(),
            names_unique(r@),
    {
        proof {
            use_type_invariant(self);
        }
        &self.langs
    }

    /// The position of the language called `name`, if there is one.
    pub fn position(&self, name: &String) -> (r: Option<usize>)
        ensures
            r matches Some(i) ==> i < self.entries().len() && self.entries()[i as int].name@ == name@,
            r is None ==> forall|i: int|
                0 <= i < self.entries().len() ==> #[trigger] self.entries()[i].name@ != name@,
    {
        let mut i: usize = 0;
        while i < self.langs.len()
            invariant
                i <= self.langs@.len(),
                forall|k: int| 0 <= k < i ==> #[trigger] self.langs@[k].name@ != name@,
            decreases self.langs@.len() - i,
        {
            if self.langs[i].name == *name {
                return Some(i);
            }
            i = i + 1;
        }
        None
    }
}

} // verus!
