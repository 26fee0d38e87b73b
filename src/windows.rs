use vstd::prelude::*;

verus! {

/// The image definition used on Windows hosts, where the container runs as
/// its default user.
pub open spec fn windows_dockerfile() -> Seq<char> {
    "ARG RUNTIME_VERSION=latest
FROM ruby:${RUNTIME_VERSION}
ARG FRAMEWORK_VERSION
RUN if [ -z \"${FRAMEWORK_VERSION}\" ]; then gem install rails; else gem install rails -v \"${FRAMEWORK_VERSION}\"; fi
"@
}

/// The image definition for this platform, delivered to the build on its
/// standard input.
pub fn dockerfile_content() -> (r: &'static str)
    ensures
        r@ == windows_dockerfile(),
{
    "ARG RUNTIME_VERSION=latest
FROM ruby:${RUNTIME_VERSION}
ARG FRAMEWORK_VERSION
RUN if [ -z \"${FRAMEWORK_VERSION}\" ]; then gem install rails; else gem install rails -v \"${FRAMEWORK_VERSION}\"; fi
"
}

/// Windows hosts pass no user id to the build.
pub fn get_user_id() -> (r: Option<u32>)
    ensures
        r is None,
{
    None
}

/// Windows hosts pass no group id to the build.
pub fn get_group_id() -> (r: Option<u32>)
    ensures
        r is None,
{
    None
}

} // verus!
