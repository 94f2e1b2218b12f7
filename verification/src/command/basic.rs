//! Basic command wrappers: rewriting or hiding command info, and prefix
//! stripping.

use vstd::prelude::*;
use crate::command::Info;
use crate::text::clone_opt_string;

verus! {

/// Rewrite or hide a command's info.
#[derive(Debug)]
pub struct Described<C> {
    /// The command whose info is rewritten.
    pub inner: C,
    /// Replace the trigger: `None` keeps the inner trigger, `Some(None)`
    /// hides it, `Some(Some(t))` replaces it.
    pub trigger: Option<Option<String>>,
    /// Replace the description, like the trigger.
    pub description: Option<Option<String>>,
}

impl<C> Described<C> {
    /// Wrap a command without changing its info.
    pub fn new(inner: C) -> (r: Described<C>)
        ensures
            r.inner == inner,
            r.trigger is None,
            r.description is None,
    {
        Described { inner, trigger: None, description: None }
    }

    /// Wrap a command and hide its trigger and description.
    pub fn hidden(inner: C) -> (r: Described<C>)
        ensures
            r.inner == inner,
            r.trigger == Some(None::<String>),
            r.description == Some(None::<String>),
    {
        Described { inner, trigger: Some(None), description: Some(None) }
    }

    /// Replace the trigger.
    pub fn with_trigger(self, trigger: String) -> (r: Described<C>)
        ensures
            r.inner == self.inner,
            r.trigger == Some(Some(trigger)),
            r.description == self.description,
    {
        Described { trigger: Some(Some(trigger)), ..self }
    }

    /// Hide the trigger.
    pub fn with_trigger_hidden(self) -> (r: Described<C>)
        ensures
            r.inner == self.inner,
            r.trigger == Some(None::<String>),
            r.description == self.description,
    {
        Described { trigger: Some(None), ..self }
    }

    /// Replace the description.
    pub fn with_description(self, description: String) -> (r: Described<C>)
        ensures
            r.inner == self.inner,
            r.description == Some(Some(description)),
            r.trigger == self.trigger,
    {
        Described { description: Some(Some(description)), ..self }
    }

    /// Hide the description.
    pub fn with_description_hidden(self) -> (r: Described<C>)
        ensures
            r.inner == self.inner,
            r.description == Some(None::<String>),
            r.trigger == self.trigger,
    {
        Described { description: Some(None), ..self }
    }

    /// The info after rewriting the inner command's info.
    pub fn rewrite_info(&self, inner_info: Info) -> (r: Info)
        ensures
            r.trigger == (match self.trigger {
                Option::Some(t) => t,
                Option::None => inner_info.trigger,
            }),
            r.description == (match self.description {
                Option::Some(d) => d,
                Option::None => inner_info.description,
            }),
    {
        let trigger = match &self.trigger {
            Option::Some(t) => clone_opt_string(t),
            Option::None => inner_info.trigger,
        };
        let description = match &self.description {
            Option::Some(d) => clone_opt_string(d),
            Option::None => inner_info.description,
        };
        Info { trigger, description }
    }
}

/// A wrapper that strips a fixed prefix, after leading whitespace, before
/// running its inner command.
#[derive(Debug)]
pub struct Prefixed<C> {
    /// The prefix to strip.
    pub prefix: String,
    /// The command that runs on the text after the prefix.
    pub inner: C,
}

impl<C> Prefixed<C> {
    /// Wrap a command behind a prefix.
    pub fn new(prefix: String, inner: C) -> (r: Prefixed<C>)
        ensures
            r.prefix == prefix,
            r.inner == inner,
    {
        Prefixed { prefix, inner }
    }
}

/// A wrapper that hides a command from listings without changing what it
/// does.
#[derive(Debug)]
pub struct Hidden<C>(pub C);

} // verus!
