//! The service adapter: from a service description to its local build
//! directory.
//!
//! A service optionally carries a build record; a build record carries one
//! build context, which the upstream parser may have failed to read. The
//! adapter dispatches to the context mapper and propagates either failure.

use vstd::prelude::*;
use crate::context::BuildContext;
use crate::context::ContextModel;
use crate::context::Error;
use crate::context::ErrorModel;
use crate::mapper::git_to_local;
use crate::mapper::spec_git_to_local;
use crate::path::LocalPath;

verus! {

/// The build section of a service description.
#[derive(Debug)]
pub struct Build {
    /// The build context, or the upstream parser's error from reading it.
    pub context: Result<BuildContext, Error>,
}

impl View for Build {
    type V = Result<ContextModel, ErrorModel>;

    open spec fn view(&self) -> Result<ContextModel, ErrorModel> {
        match &self.context {
            Ok(c) => Ok(c@),
            Err(e) => Err(e@),
        }
    }
}

/// A service description, opaque but for its optional build section.
#[derive(Debug)]
pub struct Service {
    /// The build section, when the service has one.
    pub build: Option<Build>,
}

impl View for Service {
    type V = Option<Result<ContextModel, ErrorModel>>;

    open spec fn view(&self) -> Option<Result<ContextModel, ErrorModel>> {
        match &self.build {
            Some(b) => Some(b@),
            None => None,
        }
    }
}

/// What the adapter returns for each service: no path without a build
/// section; otherwise the mapper's result for the build context, or the
/// upstream error from reading that context.
pub open spec fn spec_local_build_dir(b: Option<Result<ContextModel, ErrorModel>>) -> Result<
    Option<Seq<char>>,
    ErrorModel,
> {
    match b {
        None => Ok(None),
        Some(Err(e)) => Err(e),
        Some(Ok(c)) => match spec_git_to_local(c) {
            Ok(p) => Ok(Some(p)),
            Err(e) => Err(e),
        },
    }
}

/// The model of an adapter result: the optional path's or the error's
/// character content.
pub open spec fn opt_result_model(r: Result<Option<LocalPath>, Error>) -> Result<
    Option<Seq<char>>,
    ErrorModel,
> {
    match r {
        Ok(Some(p)) => Ok(Some(p@)),
        Ok(None) => Ok(None),
        Err(e) => Err(e@),
    }
}

/// Extension methods for service descriptions.
pub trait ServiceExt {
    /// The model of the service's build section, as the adapter reads it.
    spec fn build_model(&self) -> Option<Result<ContextModel, ErrorModel>>;

    /// The local build directory for the service: none without a build
    /// section, otherwise the context mapper's result for its context,
    /// with either component's error propagated.
    fn local_build_dir(&self) -> (r: Result<Option<LocalPath>, Error>)
        ensures
            opt_result_model(r) == spec_local_build_dir(self.build_model()),
    ;
}

impl ServiceExt for Service {
    open spec fn build_model(&self) -> Option<Result<ContextModel, ErrorModel>> {
        self@
    }

    fn local_build_dir(&self) -> (r: Result<Option<LocalPath>, Error>) {
        match &self.build {
            None => Ok(None),
            Some(build) => match &build.context {
                Err(e) => Err(e.dup()),
                Ok(ctx) => match git_to_local(ctx) {
                    Ok(p) => Ok(Some(p)),
                    Err(e) => Err(e),
                },
            },
        }
    }
}

} // verus!
