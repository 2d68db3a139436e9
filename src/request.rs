//! Requests to generate cases, and how they are checked before any container
//! is made.

use crate::langs::{LangType, Languages};
use crate::runner::exec::{self, ExecConfig};
use vstd::prelude::*;

verus! {

/// The type of a generator input or output, as a request names it.
#[derive(Clone, Copy, Debug, PartialEq, Eq, Structural)]
pub enum Type {
    Int,
    Float,
    String,
}

/// A request to run a generator and collect the cases it prints.
#[derive(Debug)]
pub struct ExecRequest {
    pub content: String,
    pub language: String,
    pub inputs: Vec<Type>,
    pub output: Type,
    pub hidden_cases: u16,
    pub visible_cases: u16,
    pub generate_cases: u16,
}

/// Why a request is turned away before it runs.
#[derive(Clone, Copy, Debug, PartialEq, Eq, Structural)]
pub enum RequestError {
    /// The request asks for no cases at all.
    NoCases,
    /// No supported language has the requested name.
    UnknownLanguage,
    /// The requested language is not a scripting language.
    NotScripting,
}

/// The type that a harness is rendered with for a requested type.
pub open spec fn exec_type(t: Type) -> exec::Type {
    match t {
        Type::Int => exec::Type::Int,
        Type::Float => exec::Type::Float,
        Type::String => exec::Type::String,
    }
}

impl Type {
    pub fn to_exec(self) -> (r: exec::Type)
        ensures
            r == exec_type(self),
    {
        match self {
            Type::Int => exec::Type::Int,
            Type::Float => exec::Type::Float,
            Type::String => exec::Type::String,
        }
    }
}

impl ExecRequest {
    /// Checks a request against the supported languages: it must ask for at
    /// least one case, and name a scripting language. Gives the position of
    /// that language.
    pub fn target_language(&self, langs: &Languages) -> (r: Result<usize, RequestError>)
        ensures
            self.generate_cases == 0 ==> r == Err::<usize, RequestError>(RequestError::NoCases),
            self.generate_cases > 0 && (forall|i: int|
                0 <= i < langs.entries().len() ==> #[trigger] langs.entries()[i].name@
                    != self.language@) ==> r == Err::<usize, RequestError>(
                RequestError::UnknownLanguage,
            ),
            self.generate_cases > 0 ==> forall|i: int|
                0 <= i < langs.entries().len() && #[trigger] langs.entries()[i].name@
                    == self.language@ ==> if langs.entries()[i].lang_type == LangType::Scripting {
                    r == Ok::<usize, RequestError>(i as usize)
                } else {
                    r == Err::<usize, RequestError>(RequestError::NotScripting)
                },
    {
        if self.generate_cases == 0 {
            return Err(RequestError::NoCases);
        }
        let all = langs.list();
        match langs.position(&self.language) {
            None => Err(RequestError::UnknownLanguage),
            Some(i) => {
                if all[i].lang_type == LangType::Scripting {
                    Ok(i)
                } else {
                    Err(RequestError::NotScripting)
                }
            },
        }
    }

    /// What the harness of this request is rendered from.
    pub fn exec_config(&self) -> (cfg: ExecConfig<'_>)
        ensures
            cfg.content@ == self.content@,
            cfg.inputs@.len() == self.inputs@.len(),
            forall|i: int| 0 <= i < self.inputs@.len() ==> cfg.inputs@[i] == exec_type(#[trigger] self.inputs@[i]),
            cfg.output == exec_type(self.output),
            cfg.hidden_cases == self.hidden_cases,
            cfg.visible_cases == self.visible_cases,
            cfg.generate_cases == self.generate_cases,
    {
        let mut inputs: Vec<exec::Type> = Vec::new();
        let mut i: usize = 0;
        while i < self.inputs.len()
            invariant
                i <= self.inputs@.len(),
                inputs@.len() == i,
                forall|k: int| 0 <= k < i ==> inputs@[k] == exec_type(#[trigger] self.inputs@[k]),
            decreases self.inputs@.len() - i,
        {
            inputs.push(self.inputs[i].to_exec());
            i = i + 1;
        }
        ExecConfig {
            content: self.content.as_str(),
            inputs,
            output: self.output.to_exec(),
            hidden_cases: self.hidden_cases,
            visible_cases: self.visible_cases,
            generate_cases: self.generate_cases,
        }
    }
}

} // verus!
