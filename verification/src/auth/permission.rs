//! Permissions that endpoints ask for.
use std::marker::PhantomData;

use vstd::prelude::*;

use crate::auth::error::{AuthRejection, AuthRejectionView};
use crate::auth::store::AuthContext;
use crate::names;

verus! {

/// A permission that an endpoint asks for.
pub trait RequiredPermission {
    /// The permission's name.
    spec fn permission() -> Seq<char>;

    fn name() -> (r: &'static str)
        ensures
            r@ == Self::permission(),
    ;
}

#[derive(Debug)]
pub struct ArtifactsWrite;

impl RequiredPermission for ArtifactsWrite {
    open spec fn permission() -> Seq<char> {
        "artifacts:write"@
    }

    fn name() -> (r: &'static str) {
        "artifacts:write"
    }
}

#[derive(Debug)]
pub struct ArtifactsRead;

impl RequiredPermission for ArtifactsRead {
    open spec fn permission() -> Seq<char> {
        "artifacts:read"@
    }

    fn name() -> (r: &'static str) {
        "artifacts:read"
    }
}

#[derive(Debug)]
pub struct JobsRun;

impl RequiredPermission for JobsRun {
    open spec fn permission() -> Seq<char> {
        "jobs:run"@
    }

    fn name() -> (r: &'static str) {
        "jobs:run"
    }
}

#[derive(Debug)]
pub struct JobsRead;

impl RequiredPermission for JobsRead {
    open spec fn permission() -> Seq<char> {
        "jobs:read"@
    }

    fn name() -> (r: &'static str) {
        "jobs:read"
    }
}

#[derive(Debug)]
pub struct LogsRead;

impl RequiredPermission for LogsRead {
    open spec fn permission() -> Seq<char> {
        "logs:read"@
    }

    fn name() -> (r: &'static str) {
        "logs:read"
    }
}

/// A request of a server that has the permission `P`.
#[derive(Debug)]
pub struct Authorized<P> {
    server_name: String,
    _marker: PhantomData<P>,
}

impl<P> Authorized<P> {
    /// The name of the server.
    pub closed spec fn server(self) -> Seq<char> {
        self.server_name@
    }

    pub fn token_name(&self) -> (r: &str)
        ensures
            r@ == self.server(),
    {
        self.server_name.as_str()
    }
}

impl<P> Clone for Authorized<P> {
    fn clone(&self) -> (r: Self)
        ensures
            r.server() == self.server(),
    {
        Authorized { server_name: self.server_name.clone(), _marker: PhantomData }
    }
}

/// Whether a request with the given context, if it was verified at all, may do
/// what takes the permission.
pub open spec fn authorization(context: Option<AuthContext>, permission: Seq<char>) -> Result<
    Seq<char>,
    AuthRejectionView,
> {
    match context {
        None => Err(AuthRejectionView::MissingAuthorization),
        Some(context) => if names::has_name(context.permissions@, permission) {
            Ok(context.server_name@)
        } else {
            Err(
                AuthRejectionView::MissingPermission {
                    server_name: context.server_name@,
                    permission,
                },
            )
        },
    }
}

/// The context by value.
pub open spec fn context_of(context: Option<&AuthContext>) -> Option<AuthContext> {
    match context {
        Some(c) => Some(*c),
        None => None,
    }
}

/// Lets a request do what takes the permission `P`, or turns it down.
pub fn authorize<P: RequiredPermission>(context: Option<&AuthContext>) -> (r: Result<
    Authorized<P>,
    AuthRejection,
>)
    ensures
        ({
            let expected = authorization(context_of(context), P::permission());
            match r {
                Ok(authorized) => expected == Ok::<_, AuthRejectionView>(authorized.server()),
                Err(e) => expected == Err::<Seq<char>, _>(e@),
            }
        }),
{
    let Some(context) = context else {
        return Err(AuthRejection::MissingAuthorization);
    };
    let permission = P::name();
    if !context.permissions.contains_name(permission) {
        return Err(
            AuthRejection::MissingPermission {
                server_name: context.server_name.clone(),
                permission: permission.to_owned(),
            },
        );
    }
    Ok(Authorized { server_name: context.server_name.clone(), _marker: PhantomData })
}

} // verus!
