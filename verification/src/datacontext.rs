//! What is known about the datamodels and data contexts of the user
//! interface; for now only the name of the scripted GUI in use.

use vstd::prelude::*;

use crate::token::Token;

verus! {

/// What is known about a data context of the user interface.
#[derive(Debug)]
pub struct DataContext {
    sgui_name: Option<Token>,
}

impl DataContext {
    /// The name of the scripted GUI of the context, if known.
    pub closed spec fn spec_sgui_name(&self) -> Option<Token> {
        self.sgui_name
    }

    /// A context of which nothing is known.
    pub fn new() -> (r: DataContext)
        ensures
            r.spec_sgui_name() is None,
    {
        DataContext { sgui_name: None }
    }

    /// Records the name of the scripted GUI of the context.
    pub fn set_sgui_name(&mut self, name: Token)
        ensures
            final(self).spec_sgui_name() == Some(name),
    {
        self.sgui_name = Some(name);
    }

    /// The name of the scripted GUI of the context, if known.
    pub fn sgui_name(&self) -> (r: Option<&Token>)
        ensures
            match r {
                Some(t) => self.spec_sgui_name() == Some(*t),
                None => self.spec_sgui_name() is None,
            },
    {
        match &self.sgui_name {
            Some(t) => Some(t),
            None => None,
        }
    }
}

} // verus!
