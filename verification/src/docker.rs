//! Containers: which image a session runs in and how the container is started.

use crate::git::GitError;
use vstd::prelude::*;

pub mod container;
pub mod display;
pub mod events;

verus! {

/// The file that describes a project's own image.
pub const DOCKERFILE_NAME: &'static str = "Dockerfile.vibes";

/// Where the image of a session comes from.
#[derive(Clone, Debug, PartialEq, Eq)]
pub enum ImageSource {
    /// Built from the image description at `dockerfile`, with `context` as build context.
    BuildFrom { dockerfile: String, context: String },
    /// The image that is there for every project.
    UseDefault,
}

/// `ImageSource` as a mathematical value.
pub enum ImageSourceView {
    BuildFrom { dockerfile: Seq<char>, context: Seq<char> },
    UseDefault,
}

impl View for ImageSource {
    type V = ImageSourceView;

    open spec fn view(&self) -> ImageSourceView {
        match self {
            ImageSource::BuildFrom { dockerfile, context } => ImageSourceView::BuildFrom {
                dockerfile: dockerfile@,
                context: context@,
            },
            ImageSource::UseDefault => ImageSourceView::UseDefault,
        }
    }
}

/// A place where an image description may lie, and whether one lies there.
#[derive(Clone, Debug, PartialEq, Eq)]
pub struct DockerfileProbe {
    /// The path the image description would have.
    pub dockerfile: String,
    /// The directory it would be built in.
    pub context: String,
    /// Whether the file is there.
    pub exists: bool,
}

/// The image source that the probes amount to: the worktree's own image
/// description first, then the workspace's, then the default image. The
/// workspace is only looked at when the worktree has nothing, so an error
/// from probing it only counts then.
pub fn find_image_source(
    worktree: DockerfileProbe,
    workspace: Result<Option<DockerfileProbe>, GitError>,
) -> (r: Result<ImageSource, GitError>)
    ensures
        r is Err <==> !worktree.exists && workspace is Err,
        r matches Err(e) ==> workspace matches Err(cause) && e == cause,
        r matches Ok(source) ==> source@ == (if worktree.exists {
            ImageSourceView::BuildFrom {
                dockerfile: worktree.dockerfile@,
                context: worktree.context@,
            }
        } else {
            match workspace {
                Ok(Some(probe)) => if probe.exists {
                    ImageSourceView::BuildFrom {
                        dockerfile: probe.dockerfile@,
                        context: probe.context@,
                    }
                } else {
                    ImageSourceView::UseDefault
                },
                _ => ImageSourceView::UseDefault,
            }
        }),
{
    if worktree.exists {
        return Ok(
            ImageSource::BuildFrom { dockerfile: worktree.dockerfile, context: worktree.context },
        );
    }
    match workspace {
        Err(cause) => Err(cause),
        Ok(Some(probe)) => {
            if probe.exists {
                Ok(ImageSource::BuildFrom { dockerfile: probe.dockerfile, context: probe.context })
            } else {
                Ok(ImageSource::UseDefault)
            }
        },
        Ok(None) => Ok(ImageSource::UseDefault),
    }
}

/// The name of the image to run once `source` has been prepared: the name
/// given to a built image, or the default image.
pub fn image_to_run(source: &ImageSource, image_name: &str, default_image: &str) -> (r: String)
    ensures
        r@ == (match source {
            ImageSource::BuildFrom { .. } => image_name@,
            ImageSource::UseDefault => default_image@,
        }),
{
    match source {
        ImageSource::BuildFrom { .. } => String::from_str(image_name),
        ImageSource::UseDefault => String::from_str(default_image),
    }
}

} // verus!
