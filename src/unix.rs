use vstd::prelude::*;

verus! {

/// The image definition used on POSIX-like hosts: it creates a user with the
/// caller's identity so that generated files belong to the caller.
pub open spec fn unix_dockerfile() -> Seq<char> {
    "ARG RUNTIME_VERSION=latest
FROM ruby:${RUNTIME_VERSION}
ARG USER_ID=1000
ARG GROUP_ID=1000
RUN groupadd --force --gid ${GROUP_ID} app \\
    && useradd --uid ${USER_ID} --gid ${GROUP_ID} --create-home --non-unique app
ARG FRAMEWORK_VERSION
RUN if [ -z \"${FRAMEWORK_VERSION}\" ]; then gem install rails; else gem install rails -v \"${FRAMEWORK_VERSION}\"; fi
USER app
WORKDIR /home/app
"@
}

/// The image definition for this platform, delivered to the build on its
/// standard input.
pub fn dockerfile_content() -> (r: &'static str)
    ensures
        r@ == unix_dockerfile(),
{
    "ARG RUNTIME_VERSION=latest
FROM ruby:${RUNTIME_VERSION}
ARG USER_ID=1000
ARG GROUP_ID=1000
RUN groupadd --force --gid ${GROUP_ID} app \\
    && useradd --uid ${USER_ID} --gid ${GROUP_ID} --create-home --non-unique app
ARG FRAMEWORK_VERSION
RUN if [ -z \"${FRAMEWORK_VERSION}\" ]; then gem install rails; else gem install rails -v \"${FRAMEWORK_VERSION}\"; fi
USER app
WORKDIR /home/app
"
}

/// Relies on users::get_current_uid: the real user id of this process.
#[verifier::external_body]
fn current_uid() -> (r: u32) {
    users::get_current_uid()
}

/// Relies on users::get_current_gid: the real group id of this process.
#[verifier::external_body]
fn current_gid() -> (r: u32) {
    users::get_current_gid()
}

/// The user id of the caller, which POSIX-like hosts always have.
pub fn get_user_id() -> (r: Option<u32>)
    ensures
        r is Some,
{
    Some(current_uid())
}

/// The group id of the caller, which POSIX-like hosts always have.
pub fn get_group_id() -> (r: Option<u32>)
    ensures
        r is Some,
{
    Some(current_gid())
}

} // verus!
