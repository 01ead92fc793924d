//! The image store: where an image's files go, and what is recorded of it.

use vstd::prelude::*;
use vstd::string::*;

use crate::digest::{content_digest, content_digest_text};
use crate::paths::{join, path_join};

verus! {

/// What the store records of an image: its name, the digest of the archive it
/// was loaded from, that archive, and where its files were extracted.
#[derive(Debug, Clone)]
pub struct ImageMetadata {
    pub name: String,
    pub digest: String,
    pub source_tar: String,
    pub extracted_root: String,
}

/// The model of an `ImageMetadata`.
pub struct MetadataView {
    pub name: Seq<char>,
    pub digest: Seq<char>,
    pub source_tar: Seq<char>,
    pub extracted_root: Seq<char>,
}

impl View for ImageMetadata {
    type V = MetadataView;

    open spec fn view(&self) -> MetadataView {
        MetadataView {
            name: self.name@,
            digest: self.digest@,
            source_tar: self.source_tar@,
            extracted_root: self.extracted_root@,
        }
    }
}

/// The directory of image `name` in the store at `store_root`.
pub open spec fn image_dir(store_root: Seq<char>, name: Seq<char>) -> Seq<char> {
    path_join(path_join(store_root, "images"@), name)
}

/// The directory of image `name` in the store at `store_root`.
pub fn image_root(store_root: &str, name: &str) -> (r: String)
    ensures
        r@ == image_dir(store_root@, name@),
{
    let images = join(store_root, "images");
    join(images.as_str(), name)
}

/// Where the files of image `name` are extracted.
pub fn image_rootfs(store_root: &str, name: &str) -> (r: String)
    ensures
        r@ == path_join(image_dir(store_root@, name@), "rootfs"@),
{
    let dir = image_root(store_root, name);
    join(dir.as_str(), "rootfs")
}

/// Where the metadata of image `name` is saved.
pub fn image_metadata_path(store_root: &str, name: &str) -> (r: String)
    ensures
        r@ == path_join(image_dir(store_root@, name@), "metadata.json"@),
{
    let dir = image_root(store_root, name);
    join(dir.as_str(), "metadata.json")
}

/// The metadata of image `name` loaded into the store at `store_root` from
/// the archive at `tar_path`, whose content is `tar_bytes`: the digest is the
/// lower-case hex SHA-256 of the archive.
pub fn describe_image(store_root: &str, name: &str, tar_path: &str, tar_bytes: &[u8]) -> (r:
    ImageMetadata)
    ensures
        r@ == (MetadataView {
            name: name@,
            digest: content_digest_text(tar_bytes@),
            source_tar: tar_path@,
            extracted_root: path_join(image_dir(store_root@, name@), "rootfs"@),
        }),
        r.digest@.len() == 64,
{
    ImageMetadata {
        name: String::from_str(name),
        digest: content_digest(tar_bytes),
        source_tar: String::from_str(tar_path),
        extracted_root: image_rootfs(store_root, name),
    }
}

} // verus!
