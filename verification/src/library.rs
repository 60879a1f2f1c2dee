//! The library: works and their images, albums and folders, as stored and as shown,
//! and the decisions taken when works are added, ordered and downloaded.
//!
//! Dates are kept as microseconds since the Unix epoch, in UTC.
use vstd::prelude::*;

use std::collections::HashMap;

use crate::decimal::{i32_to_decimal, i64_to_decimal, int_decimal};
use crate::download::{DownloadTask, LocalImage};
use crate::error::Error;
use crate::paths::{path_join, path_join_spec};
use crate::text::{push_char, text_eq, text_of};

verus! {

pub fn clone_opt_string(o: &Option<String>) -> (r: Option<String>)
    ensures
        r == *o,
{
    match o {
        Some(s) => Some(s.clone()),
        None => None,
    }
}

// MARK: Remote works

/// An image of a work that is not downloaded yet.
#[derive(Debug)]
pub struct RemoteImage {
    pub filename: String,
    pub url: String,
    /// None when the work the image belongs to is already one single image of a post.
    pub page_index: Option<i32>,
}

impl Clone for RemoteImage {
    fn clone(&self) -> (r: Self)
        ensures
            r == *self,
    {
        RemoteImage { filename: self.filename.clone(), url: self.url.clone(), page_index: self.page_index }
    }
}

/// A work that is not downloaded yet, from a community or added by hand.
#[derive(Debug)]
pub struct RemoteWork {
    pub source: Option<String>,
    pub post_id: Option<String>,
    pub post_id_int: Option<i64>,
    pub page_index: Option<i32>,
    pub media_count: i32,
    pub name: Option<String>,
    pub caption: Option<String>,
    pub images: Vec<RemoteImage>,
}

/// How a remote work is named in messages: `Post <id>[:<page>][@<source>]`, the ID
/// being the text post ID, else the numeric one, else nothing.
pub open spec fn remote_work_text(w: RemoteWork) -> Seq<char> {
    seq!['P', 'o', 's', 't', ' '] + match w.post_id {
        Some(p) => p@,
        None => match w.post_id_int {
            Some(i) => int_decimal(i as int),
            None => Seq::empty(),
        },
    } + match w.page_index {
        Some(i) => seq![':'] + int_decimal(i as int),
        None => Seq::empty(),
    } + match w.source {
        Some(s) => seq!['@'] + s@,
        None => Seq::empty(),
    }
}

impl RemoteWork {
    /// How the work is named in messages.
    pub fn describe(&self) -> (r: String)
        ensures
            r@ == remote_work_text(*self),
    {
        let prefix = "Post ";
        proof {
            reveal_strlit("Post ");
        }
        assert(prefix@ =~= seq!['P', 'o', 's', 't', ' ']);
        let mut s = text_of(prefix);
        match &self.post_id {
            Some(p) => s.append(p.as_str()),
            None => match self.post_id_int {
                Some(i) => {
                    let d = i64_to_decimal(i);
                    s.append(d.as_str());
                },
                None => {},
            },
        }
        let ghost after_id = s@;
        match self.page_index {
            Some(i) => {
                push_char(&mut s, ':');
                let d = i32_to_decimal(i);
                s.append(d.as_str());
            },
            None => {},
        }
        let ghost after_page = s@;
        match &self.source {
            Some(src) => {
                push_char(&mut s, '@');
                s.append(src.as_str());
            },
            None => {},
        }
        assert(s@ =~= remote_work_text(*self));
        s
    }
}

// MARK: Stored records

/// A work in the library.
#[derive(Debug)]
pub struct Work {
    pub id: i32,
    pub source: Option<String>,
    pub post_id: Option<String>,
    pub post_id_int: Option<i64>,
    /// The index of the image within the post when the work is one image of it.
    pub page_index: Option<i32>,
    pub as_archive: bool,
    pub image_count: i32,
    pub name: Option<String>,
    pub caption: Option<String>,
    pub favorite: bool,
    pub rating: i32,
    pub thumbnail_path: Option<String>,
    pub small_thumbnail_path: Option<String>,
    pub added_date: i64,
    pub modified_date: i64,
    pub viewed_date: Option<i64>,
}

impl Clone for Work {
    fn clone(&self) -> (r: Self)
        ensures
            r == *self,
    {
        Work {
            id: self.id,
            source: clone_opt_string(&self.source),
            post_id: clone_opt_string(&self.post_id),
            post_id_int: self.post_id_int,
            page_index: self.page_index,
            as_archive: self.as_archive,
            image_count: self.image_count,
            name: clone_opt_string(&self.name),
            caption: clone_opt_string(&self.caption),
            favorite: self.favorite,
            rating: self.rating,
            thumbnail_path: clone_opt_string(&self.thumbnail_path),
            small_thumbnail_path: clone_opt_string(&self.small_thumbnail_path),
            added_date: self.added_date,
            modified_date: self.modified_date,
            viewed_date: self.viewed_date,
        }
    }
}

/// A work to insert into the library.
#[derive(Debug)]
pub struct NewWork {
    pub source: Option<String>,
    pub post_id: Option<String>,
    pub post_id_int: Option<i64>,
    pub page_index: Option<i32>,
    pub as_archive: bool,
    pub image_count: i32,
    pub name: Option<String>,
    pub caption: Option<String>,
}

/// An image of a work in the library.
#[derive(Debug)]
pub struct Image {
    pub id: i32,
    pub work_id: i32,
    pub page_index: Option<i32>,
    pub filename: String,
    pub remote_url: Option<String>,
    pub path: Option<String>,
    pub thumbnail_path: Option<String>,
    pub small_thumbnail_path: Option<String>,
    pub width: Option<i32>,
    pub height: Option<i32>,
    pub size: Option<i32>,
}

impl Clone for Image {
    fn clone(&self) -> (r: Self)
        ensures
            r == *self,
    {
        Image {
            id: self.id,
            work_id: self.work_id,
            page_index: self.page_index,
            filename: self.filename.clone(),
            remote_url: clone_opt_string(&self.remote_url),
            path: clone_opt_string(&self.path),
            thumbnail_path: clone_opt_string(&self.thumbnail_path),
            small_thumbnail_path: clone_opt_string(&self.small_thumbnail_path),
            width: self.width,
            height: self.height,
            size: self.size,
        }
    }
}

/// An image to insert into the library.
#[derive(Debug)]
pub struct NewImage {
    pub work_id: i32,
    pub page_index: Option<i32>,
    pub filename: String,
    pub remote_url: Option<String>,
    pub path: Option<String>,
    pub width: Option<i32>,
    pub height: Option<i32>,
    pub size: Option<i32>,
}

/// The fields of an image that a finished download sets.
#[derive(Debug)]
pub struct ImageUpdate {
    pub path: Option<String>,
    pub thumbnail_path: Option<String>,
    pub small_thumbnail_path: Option<String>,
    pub width: Option<i32>,
    pub height: Option<i32>,
    pub size: Option<i32>,
}

/// An album in the library.
#[derive(Debug)]
pub struct Album {
    pub id: i32,
    pub name: String,
    pub folder_id: Option<i32>,
    pub position: i32,
    pub added_date: i64,
    pub modified_date: i64,
}

/// An album to insert.
#[derive(Debug)]
pub struct NewAlbum {
    pub name: String,
    pub folder_id: Option<i32>,
    pub position: i32,
}

/// Where an album moves to.
#[derive(Debug)]
pub struct AlbumUpdate {
    pub folder_id: Option<i32>,
    pub position: i32,
}

/// A work placed in an album.
#[derive(Debug, Clone, Copy, PartialEq, Eq, Structural)]
pub struct AlbumWork {
    pub album_id: i32,
    pub work_id: i32,
    pub position: i32,
}

/// A folder of albums.
#[derive(Debug)]
pub struct Folder {
    pub id: i32,
    pub name: String,
    pub parent_id: Option<i32>,
    pub position: i32,
    pub added_date: i64,
    pub modified_date: i64,
}

/// A folder to insert.
#[derive(Debug)]
pub struct NewFolder {
    pub name: String,
    pub parent_id: Option<i32>,
    pub position: i32,
}

/// Where a folder moves to.
#[derive(Debug)]
pub struct FolderUpdate {
    pub parent_id: Option<i32>,
    pub position: i32,
}

// MARK: Views

/// A work as the client sees it.
#[derive(Debug)]
pub struct WorkView {
    pub id: i32,
    pub community: Option<String>,
    pub post_id: Option<String>,
    pub page_index: Option<i32>,
    pub as_archive: bool,
    pub name: Option<String>,
    pub caption: Option<String>,
    pub favorite: bool,
    pub rating: i32,
    pub thumbnail_path: Option<String>,
    pub small_thumbnail_path: Option<String>,
    pub added_date: i64,
    pub modified_date: i64,
    pub viewed_date: Option<i64>,
}

/// An image as the client sees it.
#[derive(Debug)]
pub struct ImageView {
    pub id: i32,
    pub work_id: i32,
    pub page_index: Option<i32>,
    pub filename: String,
    pub remote_url: Option<String>,
    pub path: Option<String>,
    pub thumbnail_path: Option<String>,
    pub small_thumbnail_path: Option<String>,
    pub width: Option<i32>,
    pub height: Option<i32>,
    pub size: Option<i32>,
}

/// An album as the client sees it.
#[derive(Debug)]
pub struct AlbumView {
    pub id: i32,
    pub name: String,
    pub folder_id: Option<i32>,
    pub position: i32,
    pub added_date: i64,
    pub modified_date: i64,
}

/// A folder as the client sees it.
#[derive(Debug)]
pub struct FolderView {
    pub id: i32,
    pub name: String,
    pub parent_id: Option<i32>,
    pub position: i32,
    pub added_date: i64,
    pub modified_date: i64,
}

impl WorkView {
    /// The client's view of a work: its fields, the source shown as the community.
    pub fn from_work(work: Work) -> (r: Self)
        ensures
            r == (WorkView {
                id: work.id,
                community: work.source,
                post_id: work.post_id,
                page_index: work.page_index,
                as_archive: work.as_archive,
                name: work.name,
                caption: work.caption,
                favorite: work.favorite,
                rating: work.rating,
                thumbnail_path: work.thumbnail_path,
                small_thumbnail_path: work.small_thumbnail_path,
                added_date: work.added_date,
                modified_date: work.modified_date,
                viewed_date: work.viewed_date,
            }),
    {
        WorkView {
            id: work.id,
            community: work.source,
            post_id: work.post_id,
            page_index: work.page_index,
            as_archive: work.as_archive,
            name: work.name,
            caption: work.caption,
            favorite: work.favorite,
            rating: work.rating,
            thumbnail_path: work.thumbnail_path,
            small_thumbnail_path: work.small_thumbnail_path,
            added_date: work.added_date,
            modified_date: work.modified_date,
            viewed_date: work.viewed_date,
        }
    }
}

impl ImageView {
    /// The client's view of an image: its fields.
    pub fn from_image(image: Image) -> (r: Self)
        ensures
            r == (ImageView {
                id: image.id,
                work_id: image.work_id,
                page_index: image.page_index,
                filename: image.filename,
                remote_url: image.remote_url,
                path: image.path,
                thumbnail_path: image.thumbnail_path,
                small_thumbnail_path: image.small_thumbnail_path,
                width: image.width,
                height: image.height,
                size: image.size,
            }),
    {
        ImageView {
            id: image.id,
            work_id: image.work_id,
            page_index: image.page_index,
            filename: image.filename,
            remote_url: image.remote_url,
            path: image.path,
            thumbnail_path: image.thumbnail_path,
            small_thumbnail_path: image.small_thumbnail_path,
            width: image.width,
            height: image.height,
            size: image.size,
        }
    }
}

impl AlbumView {
    /// The client's view of an album: its fields.
    pub fn from_album(album: Album) -> (r: Self)
        ensures
            r == (AlbumView {
                id: album.id,
                name: album.name,
                folder_id: album.folder_id,
                position: album.position,
                added_date: album.added_date,
                modified_date: album.modified_date,
            }),
    {
        AlbumView {
            id: album.id,
            name: album.name,
            folder_id: album.folder_id,
            position: album.position,
            added_date: album.added_date,
            modified_date: album.modified_date,
        }
    }
}

impl FolderView {
    /// The client's view of a folder: its fields.
    pub fn from_folder(folder: Folder) -> (r: Self)
        ensures
            r == (FolderView {
                id: folder.id,
                name: folder.name,
                parent_id: folder.parent_id,
                position: folder.position,
                added_date: folder.added_date,
                modified_date: folder.modified_date,
            }),
    {
        FolderView {
            id: folder.id,
            name: folder.name,
            parent_id: folder.parent_id,
            position: folder.position,
            added_date: folder.added_date,
            modified_date: folder.modified_date,
        }
    }
}

// MARK: Adding works and images

/// The image records to insert for a new work: one per remote image, in order, each
/// with the image's own page index and its URL as remote URL.
pub fn new_images(remote_work: &RemoteWork, work_id: i32) -> (r: Vec<NewImage>)
    ensures
        r@.len() == remote_work.images@.len(),
        forall|i: int|
            0 <= i < r@.len() ==> #[trigger] r@[i] == (NewImage {
                work_id,
                page_index: remote_work.images@[i].page_index,
                filename: remote_work.images@[i].filename,
                remote_url: Some(remote_work.images@[i].url),
                path: None,
                width: None,
                height: None,
                size: None,
            }),
{
    let mut out: Vec<NewImage> = Vec::new();
    let mut i: usize = 0;
    while i < remote_work.images.len()
        invariant
            i <= remote_work.images@.len(),
            out@.len() == i,
            forall|k: int|
                0 <= k < i ==> #[trigger] out@[k] == (NewImage {
                    work_id,
                    page_index: remote_work.images@[k].page_index,
                    filename: remote_work.images@[k].filename,
                    remote_url: Some(remote_work.images@[k].url),
                    path: None,
                    width: None,
                    height: None,
                    size: None,
                }),
        decreases remote_work.images@.len() - i,
    {
        let image = &remote_work.images[i];
        out.push(
            NewImage {
                work_id,
                page_index: image.page_index,
                filename: image.filename.clone(),
                remote_url: Some(image.url.clone()),
                path: None,
                width: None,
                height: None,
                size: None,
            },
        );
        i += 1;
    }
    out
}

impl NewImage {
    /// The record of a remote image not yet tied to a work (work ID 0).
    pub fn from_remote_image(image: &RemoteImage) -> (r: Self)
        ensures
            r == (NewImage {
                work_id: 0,
                page_index: image.page_index,
                filename: image.filename,
                remote_url: Some(image.url),
                path: None,
                width: None,
                height: None,
                size: None,
            }),
    {
        NewImage {
            work_id: 0,
            page_index: image.page_index,
            filename: image.filename.clone(),
            remote_url: Some(image.url.clone()),
            path: None,
            width: None,
            height: None,
            size: None,
        }
    }

    /// The record of a remote image of the given work.
    pub fn for_work(image: &RemoteImage, work_id: i32) -> (r: Self)
        ensures
            r == (NewImage {
                work_id,
                page_index: image.page_index,
                filename: image.filename,
                remote_url: Some(image.url),
                path: None,
                width: None,
                height: None,
                size: None,
            }),
    {
        NewImage {
            work_id,
            page_index: image.page_index,
            filename: image.filename.clone(),
            remote_url: Some(image.url.clone()),
            path: None,
            width: None,
            height: None,
            size: None,
        }
    }
}

impl ImageUpdate {
    /// What a downloaded image sets on its record: its path, thumbnails, dimensions and
    /// size (the numbers converted to `i32` as `as` does).
    pub fn from_local_image(image: &LocalImage) -> (r: Self)
        ensures
            r == (ImageUpdate {
                path: Some(image.relpath),
                thumbnail_path: image.thumbnail_relpath,
                small_thumbnail_path: image.small_thumbnail_relpath,
                width: match image.width {
                    Some(v) => Some(v as i32),
                    None => None,
                },
                height: match image.height {
                    Some(v) => Some(v as i32),
                    None => None,
                },
                size: Some(image.size as i32),
            }),
    {
        ImageUpdate {
            path: Some(image.relpath.clone()),
            thumbnail_path: clone_opt_string(&image.thumbnail_relpath),
            small_thumbnail_path: clone_opt_string(&image.small_thumbnail_relpath),
            width: match image.width {
                Some(v) => Some(v as i32),
                None => None,
            },
            height: match image.height {
                Some(v) => Some(v as i32),
                None => None,
            },
            size: Some(image.size as i32),
        }
    }
}

impl NewWork {
    /// The record of a remote work: not an archive, with as many images as the post has media.
    pub fn from_remote_work(work: &RemoteWork) -> (r: Self)
        ensures
            r == (NewWork {
                source: work.source,
                post_id: work.post_id,
                post_id_int: work.post_id_int,
                page_index: work.page_index,
                as_archive: false,
                image_count: work.media_count,
                name: work.name,
                caption: work.caption,
            }),
    {
        NewWork {
            source: clone_opt_string(&work.source),
            post_id: clone_opt_string(&work.post_id),
            post_id_int: work.post_id_int,
            page_index: work.page_index,
            as_archive: false,
            image_count: work.media_count,
            name: clone_opt_string(&work.name),
            caption: clone_opt_string(&work.caption),
        }
    }
}

/// The error for a remote work that is already in the library.
pub fn work_exists_error(work: &RemoteWork) -> (r: Error)
    ensures
        r matches Error::ObjectAlreadyExists(m) && m@ == remote_work_text(*work),
{
    Error::ObjectAlreadyExists(work.describe())
}

/// How an image of a work is named in messages: `<work_id>[:<page>]`.
pub open spec fn work_image_text(work_id: i32, page_index: Option<i32>) -> Seq<char> {
    int_decimal(work_id as int) + match page_index {
        Some(i) => seq![':'] + int_decimal(i as int),
        None => Seq::empty(),
    }
}

/// The error for an image that its work already has.
pub fn image_exists_error(work_id: i32, page_index: Option<i32>) -> (r: Error)
    ensures
        r matches Error::ObjectAlreadyExists(m) && m@ == work_image_text(work_id, page_index),
{
    let mut s = i32_to_decimal(work_id);
    match page_index {
        Some(i) => {
            push_char(&mut s, ':');
            let d = i32_to_decimal(i);
            s.append(d.as_str());
        },
        None => {},
    }
    Error::ObjectAlreadyExists(s)
}

/// The error for a missing object: `<kind> <id>`, such as `Folder 3`.
pub fn not_found_error(kind: &str, id: i32) -> (r: Error)
    ensures
        r matches Error::ObjectNotFound(m) && m@ == kind@ + seq![' '] + int_decimal(id as int),
{
    let mut s = text_of(kind);
    push_char(&mut s, ' ');
    let d = i32_to_decimal(id);
    s.append(d.as_str());
    Error::ObjectNotFound(s)
}

// MARK: Albums and folders

/// The gap left between the positions of neighbouring albums, folders and album works.
pub const POSITION_GAP: i32 = 100;

/// The position after the greatest one among siblings (none counts as 0).
pub fn next_position(max_position: Option<i32>) -> (r: i32)
    requires
        match max_position {
            Some(m) => m + POSITION_GAP <= i32::MAX,
            None => true,
        },
    ensures
        r == match max_position {
            Some(m) => m + POSITION_GAP,
            None => POSITION_GAP as int,
        },
{
    match max_position {
        Some(m) => m + POSITION_GAP,
        None => POSITION_GAP,
    }
}

/// The position of an album or folder being moved: the one asked for, else the one
/// after the greatest among its new siblings.
pub fn reorder_position(position: Option<i32>, max_position: Option<i32>) -> (r: i32)
    requires
        position is None ==> match max_position {
            Some(m) => m + POSITION_GAP <= i32::MAX,
            None => true,
        },
    ensures
        r == match position {
            Some(p) => p as int,
            None => match max_position {
                Some(m) => m + POSITION_GAP,
                None => POSITION_GAP as int,
            },
        },
{
    match position {
        Some(p) => p,
        None => next_position(max_position),
    }
}

/// Works placed at the end of an album, in the order given: the `i`-th (from 1) at the
/// greatest position so far plus `i` gaps.
pub fn album_works(album_id: i32, work_ids: &Vec<i32>, max_position: Option<i32>) -> (r: Vec<AlbumWork>)
    requires
        match max_position {
            Some(m) => m,
            None => 0,
        } + work_ids@.len() * POSITION_GAP <= i32::MAX,
        work_ids@.len() * POSITION_GAP <= i32::MAX,
    ensures
        r@.len() == work_ids@.len(),
        forall|i: int|
            0 <= i < r@.len() ==> #[trigger] r@[i] == (AlbumWork {
                album_id,
                work_id: work_ids@[i],
                position: (match max_position {
                    Some(m) => m,
                    None => 0,
                } + (i + 1) * POSITION_GAP) as i32,
            }),
{
    let base: i32 = match max_position {
        Some(m) => m,
        None => 0,
    };
    let mut out: Vec<AlbumWork> = Vec::new();
    let mut i: usize = 0;
    while i < work_ids.len()
        invariant
            i <= work_ids@.len(),
            out@.len() == i,
            base + work_ids@.len() * POSITION_GAP <= i32::MAX,
            work_ids@.len() * POSITION_GAP <= i32::MAX,
            base == match max_position {
                Some(m) => m,
                None => 0,
            },
            forall|k: int|
                0 <= k < i ==> #[trigger] out@[k] == (AlbumWork {
                    album_id,
                    work_id: work_ids@[k],
                    position: (base + (k + 1) * POSITION_GAP) as i32,
                }),
        decreases work_ids@.len() - i,
    {
        assert(base + (i + 1) * POSITION_GAP <= base + work_ids@.len() * POSITION_GAP) by (nonlinear_arith)
            requires
                i + 1 <= work_ids@.len(),
        ;
        assert(base + (i + 1) * POSITION_GAP >= i32::MIN) by (nonlinear_arith)
            requires
                i >= 0,
                base >= i32::MIN,
        ;
        assert((i + 1) * POSITION_GAP <= work_ids@.len() * POSITION_GAP) by (nonlinear_arith)
            requires
                i + 1 <= work_ids@.len(),
        ;
        let position = base + ((i + 1) as i32) * POSITION_GAP;
        out.push(AlbumWork { album_id, work_id: work_ids[i], position });
        i += 1;
    }
    out
}

/// Positions given by `album_works` rise strictly and all lie above the greatest
/// position the album had.
pub proof fn law_album_work_positions(album_id: i32, work_ids: Seq<i32>, max_position: Option<i32>, r: Seq<
    AlbumWork,
>)
    requires
        r.len() == work_ids.len(),
        forall|i: int|
            0 <= i < r.len() ==> #[trigger] r[i] == (AlbumWork {
                album_id,
                work_id: work_ids[i],
                position: (match max_position {
                    Some(m) => m,
                    None => 0,
                } + (i + 1) * POSITION_GAP) as i32,
            }),
        match max_position {
            Some(m) => m,
            None => 0,
        } + work_ids.len() * POSITION_GAP <= i32::MAX,
    ensures
        forall|i: int, j: int| 0 <= i < j < r.len() ==> r[i].position < r[j].position,
        forall|i: int|
            0 <= i < r.len() ==> r[i].position > match max_position {
                Some(m) => m as int,
                None => 0,
            },
{
    let base: int = match max_position {
        Some(m) => m as int,
        None => 0,
    };
    assert forall|i: int| 0 <= i < r.len() implies r[i].position == base + (i + 1) * POSITION_GAP by {
        assert(base + (i + 1) * POSITION_GAP <= base + work_ids.len() * POSITION_GAP) by (nonlinear_arith)
            requires
                i + 1 <= work_ids.len(),
        ;
        assert(base + (i + 1) * POSITION_GAP >= i32::MIN) by (nonlinear_arith)
            requires
                i >= 0,
                base >= i32::MIN,
        ;
    }
    assert forall|i: int, j: int| 0 <= i < j < r.len() implies r[i].position < r[j].position by {
        assert(base + (i + 1) * POSITION_GAP < base + (j + 1) * POSITION_GAP) by (nonlinear_arith)
            requires
                i < j,
        ;
    }
}

// MARK: Ordering works by post

/// Whether a work belongs to the post with the given ID.
pub open spec fn work_of_post(w: Work, post_id: Seq<char>) -> bool {
    w.post_id matches Some(p) && p@ == post_id
}

/// The works of a post, in their stored order.
pub open spec fn works_of_post(works: Seq<Work>, post_id: Seq<char>) -> Seq<Work> {
    works.filter(|w: Work| work_of_post(w, post_id))
}

/// The works of each post in turn, in the order of the post IDs given.
pub open spec fn works_by_posts(works: Seq<Work>, post_ids: Seq<String>) -> Seq<Work>
    decreases post_ids.len(),
{
    if post_ids.len() == 0 {
        Seq::empty()
    } else {
        works_by_posts(works, post_ids.drop_last()) + works_of_post(works, post_ids.last()@)
    }
}

fn opt_text_eq(a: &Option<String>, b: &str) -> (r: bool)
    ensures
        r == (a matches Some(p) && p@ == b@),
{
    match a {
        Some(p) => text_eq(p.as_str(), b),
        None => false,
    }
}

fn collect_works_of_post(works: &Vec<Work>, post_id: &str, out: &mut Vec<Work>)
    ensures
        final(out)@ == old(out)@ + works_of_post(works@, post_id@),
{
    let ghost start = out@;
    let mut i: usize = 0;
    while i < works.len()
        invariant
            i <= works@.len(),
            out@ == start + works_of_post(works@.take(i as int), post_id@),
        decreases works@.len() - i,
    {
        reveal_with_fuel(Seq::<_>::filter, 1);
        assert(works@.take(i + 1).drop_last() =~= works@.take(i as int));
        if opt_text_eq(&works[i].post_id, post_id) {
            let ghost before = out@;
            out.push(works[i].clone());
            assert(out@ =~= start + works_of_post(works@.take(i + 1), post_id@));
        } else {
            assert(works_of_post(works@.take(i + 1), post_id@) == works_of_post(works@.take(i as int), post_id@));
        }
        i += 1;
    }
    assert(works@.take(works@.len() as int) =~= works@);
}

/// Puts works in the order of the given post IDs: the works of each post in turn, each
/// post's works in their stored order. A post listed twice has its works twice.
pub fn order_works_by_post_ids(works: &Vec<Work>, post_ids: &Vec<String>) -> (r: Vec<Work>)
    ensures
        r@ == works_by_posts(works@, post_ids@),
{
    let mut out: Vec<Work> = Vec::new();
    let mut i: usize = 0;
    while i < post_ids.len()
        invariant
            i <= post_ids@.len(),
            out@ == works_by_posts(works@, post_ids@.take(i as int)),
        decreases post_ids@.len() - i,
    {
        assert(post_ids@.take(i + 1).drop_last() =~= post_ids@.take(i as int));
        collect_works_of_post(works, post_ids[i].as_str(), &mut out);
        i += 1;
    }
    assert(post_ids@.take(post_ids@.len() as int) =~= post_ids@);
    out
}

/// Every work that `order_works_by_post_ids` returns belongs to one of the posts asked for.
pub proof fn law_ordered_works_belong_to_posts(works: Seq<Work>, post_ids: Seq<String>)
    ensures
        forall|k: int|
            0 <= k < works_by_posts(works, post_ids).len() ==> exists|j: int|
                0 <= j < post_ids.len() && work_of_post(
                    #[trigger] works_by_posts(works, post_ids)[k],
                    post_ids[j]@,
                ),
    decreases post_ids.len(),
{
    if post_ids.len() > 0 {
        let init = post_ids.drop_last();
        law_ordered_works_belong_to_posts(works, init);
        let left = works_by_posts(works, init);
        let right = works_of_post(works, post_ids.last()@);
        let all = works_by_posts(works, post_ids);
        assert(all == left + right);
        assert forall|k: int| 0 <= k < all.len() implies exists|j: int|
            0 <= j < post_ids.len() && work_of_post(#[trigger] all[k], post_ids[j]@) by {
            if k < left.len() {
                assert(all[k] == left[k]);
                let j = choose|j: int| 0 <= j < init.len() && work_of_post(left[k], init[j]@);
                assert(post_ids[j] == init[j]);
            } else {
                assert(all[k] == right[k - left.len()]);
                broadcast use vstd::seq_lib::group_filter_ensures;
                assert(work_of_post(all[k], post_ids[post_ids.len() - 1]@));
            }
        }
    }
}

// MARK: Download tasks

/// Distinct values in order of first appearance.
pub open spec fn distinct_in_order(s: Seq<i64>) -> Seq<i64>
    decreases s.len(),
{
    if s.len() == 0 {
        Seq::empty()
    } else {
        let d = distinct_in_order(s.drop_last());
        if d.contains(s.last()) {
            d
        } else {
            d.push(s.last())
        }
    }
}

/// The distinct values among `ids`, in order of first appearance (as `unique_by` keeps
/// the first of each).
pub fn unique_ids(ids: &Vec<i64>) -> (r: Vec<i64>)
    ensures
        r@ == distinct_in_order(ids@),
{
    let mut out: Vec<i64> = Vec::new();
    let mut j: usize = 0;
    while j < ids.len()
        invariant
            j <= ids@.len(),
            out@ == distinct_in_order(ids@.take(j as int)),
        decreases ids@.len() - j,
    {
        assert(ids@.take(j + 1).drop_last() =~= ids@.take(j as int));
        let x = ids[j];
        let mut seen = false;
        let mut k: usize = 0;
        while k < out.len()
            invariant
                k <= out@.len(),
                seen == (exists|m: int| 0 <= m < k && out@[m] == x),
            decreases out@.len() - k,
        {
            if out[k] == x {
                seen = true;
            }
            k += 1;
        }
        proof {
            if out@.contains(x) {
                let m = choose|m: int| 0 <= m < out@.len() && out@[m] == x;
                assert(exists|m: int| 0 <= m < out@.len() && out@[m] == x);
            }
        }
        assert(seen == out@.contains(x));
        if !seen {
            out.push(x);
        }
        j += 1;
    }
    assert(ids@.take(ids@.len() as int) =~= ids@);
    out
}

/// Keeping the first of each value drops only repeats: no value is kept twice, and
/// every value given is kept.
pub proof fn law_distinct_keeps_each_value_once(ids: Seq<i64>)
    ensures
        forall|a: int, b: int|
            0 <= a < b < distinct_in_order(ids).len() ==> distinct_in_order(ids)[a] != distinct_in_order(ids)[b],
        forall|x: i64| ids.contains(x) <==> distinct_in_order(ids).contains(x),
    decreases ids.len(),
{
    if ids.len() > 0 {
        let rest = ids.drop_last();
        law_distinct_keeps_each_value_once(rest);
        let d = distinct_in_order(rest);
        let full = distinct_in_order(ids);
        assert(full == if d.contains(ids.last()) {
            d
        } else {
            d.push(ids.last())
        });
        assert forall|x: i64| ids.contains(x) <==> full.contains(x) by {
            if ids.contains(x) {
                let k = choose|k: int| 0 <= k < ids.len() && ids[k] == x;
                if k < ids.len() - 1 {
                    assert(rest[k] == x);
                    assert(rest.contains(x));
                    assert(d.contains(x));
                    let m = choose|m: int| 0 <= m < d.len() && d[m] == x;
                    assert(full[m] == x);
                } else if !d.contains(x) {
                    assert(full[d.len() as int] == x);
                }
            }
            if full.contains(x) {
                let m = choose|m: int| 0 <= m < full.len() && full[m] == x;
                if m < d.len() {
                    assert(d[m] == x);
                    assert(d.contains(x));
                    assert(rest.contains(x));
                    let k = choose|k: int| 0 <= k < rest.len() && rest[k] == x;
                    assert(ids[k] == x);
                } else {
                    assert(ids[ids.len() - 1] == x);
                }
            }
        }
        if !d.contains(ids.last()) {
            assert forall|a: int, b: int|
                0 <= a < b < distinct_in_order(ids).len() implies distinct_in_order(ids)[a] != distinct_in_order(
                ids,
            )[b] by {
                if b == d.len() {
                    assert(d[a] == distinct_in_order(ids)[a]);
                    assert(d.contains(d[a]));
                }
            }
        }
    }
}

/// The numeric post IDs of the records whose work comes from `source`, in order.
pub open spec fn source_post_ids(records: Seq<(Work, Image)>, source: Seq<char>) -> Seq<i64>
    decreases records.len(),
{
    if records.len() == 0 {
        Seq::empty()
    } else {
        let rest = source_post_ids(records.drop_last(), source);
        let w = records.last().0;
        if (w.source matches Some(s) && s@ == source) && w.post_id_int is Some {
            rest.push(w.post_id_int->0)
        } else {
            rest
        }
    }
}

/// The distinct numeric post IDs of the records whose work comes from `source`, in
/// order of first appearance: the posts whose authors must be looked up.
pub fn unique_source_post_ids(records: &Vec<(Work, Image)>, source: &str) -> (r: Vec<i64>)
    ensures
        r@ == distinct_in_order(source_post_ids(records@, source@)),
{
    let mut all: Vec<i64> = Vec::new();
    let mut i: usize = 0;
    while i < records.len()
        invariant
            i <= records@.len(),
            all@ == source_post_ids(records@.take(i as int), source@),
        decreases records@.len() - i,
    {
        assert(records@.take(i + 1).drop_last() =~= records@.take(i as int));
        let w = &records[i].0;
        if opt_text_eq(&w.source, source) {
            if let Some(id) = w.post_id_int {
                all.push(id);
            }
        }
        i += 1;
    }
    assert(records@.take(records@.len() as int) =~= records@);
    unique_ids(&all)
}

/// The author of a post in a table of post authors.
pub open spec fn author_of(users: Map<i64, i64>, post_id: i64) -> Option<i64> {
    if users.contains_key(post_id) {
        Some(users[post_id])
    } else {
        None
    }
}

/// The download task of a record: the image's URL and file name, and a directory
/// named after the community, with a subdirectory for the post's author when the
/// author is known (posts of `twitter` and `pixiv`).
pub open spec fn is_download_task_for(
    t: DownloadTask,
    record: (Work, Image),
    twitter_users: Map<i64, i64>,
    pixiv_users: Map<i64, i64>,
    root_dir: Seq<char>,
) -> bool {
    let community = record.0.source->0@;
    let post_id = record.0.post_id_int->0;
    let user = if community == seq!['t', 'w', 'i', 't', 't', 'e', 'r'] {
        author_of(twitter_users, post_id)
    } else if community == seq!['p', 'i', 'x', 'i', 'v'] {
        author_of(pixiv_users, post_id)
    } else {
        None
    };
    &&& t.url == record.1.remote_url->0
    &&& t.filename == record.1.filename
    &&& t.root_dir@ == root_dir
    &&& t.image_id == record.1.id
    &&& t.subdir@ == match user {
        Some(u) => path_join_spec(community, int_decimal(u as int)),
        None => community,
    }
}

/// A download task puts a Twitter or Pixiv image under `<community>/<author>`, the
/// author looked up among that community's own users; an image whose author is not
/// known, or of any other community, goes under `<community>`. The task fetches the
/// image's URL into its file name under the root directory.
pub proof fn law_download_task_directory(
    t: DownloadTask,
    record: (Work, Image),
    twitter_users: Map<i64, i64>,
    pixiv_users: Map<i64, i64>,
    root_dir: Seq<char>,
)
    requires
        is_download_task_for(t, record, twitter_users, pixiv_users, root_dir),
    ensures
        ({
            let community = record.0.source->0@;
            let post = record.0.post_id_int->0;
            &&& community == seq!['t', 'w', 'i', 't', 't', 'e', 'r'] && twitter_users.contains_key(post)
                ==> t.subdir@ == path_join_spec(community, int_decimal(twitter_users[post] as int))
            &&& community == seq!['p', 'i', 'x', 'i', 'v'] && pixiv_users.contains_key(post) ==> t.subdir@
                == path_join_spec(community, int_decimal(pixiv_users[post] as int))
            &&& community == seq!['t', 'w', 'i', 't', 't', 'e', 'r'] && !twitter_users.contains_key(post) ==> t.subdir@
                == community
            &&& community == seq!['p', 'i', 'x', 'i', 'v'] && !pixiv_users.contains_key(post) ==> t.subdir@
                == community
            &&& community != seq!['t', 'w', 'i', 't', 't', 'e', 'r'] && community != seq!['p', 'i', 'x', 'i', 'v']
                ==> t.subdir@ == community
            &&& t.url == record.1.remote_url->0
            &&& t.filename == record.1.filename
            &&& t.root_dir@ == root_dir
            &&& t.image_id == record.1.id
        }),
{
}

/// The download tasks for records of works and their images not yet downloaded, one
/// per record, in order. Every record must name its community, numeric post ID and
/// remote URL.
pub fn build_download_tasks(
    records: &Vec<(Work, Image)>,
    twitter_users: &HashMap<i64, i64>,
    pixiv_users: &HashMap<i64, i64>,
    root_dir: &str,
) -> (r: Vec<DownloadTask>)
    requires
        forall|i: int|
            0 <= i < records@.len() ==> (#[trigger] records@[i]).0.source is Some
                && records@[i].0.post_id_int is Some && records@[i].1.remote_url is Some,
    ensures
        r@.len() == records@.len(),
        forall|i: int|
            0 <= i < r@.len() ==> is_download_task_for(
                #[trigger] r@[i],
                records@[i],
                twitter_users@,
                pixiv_users@,
                root_dir@,
            ),
{
    broadcast use vstd::std_specs::hash::group_hash_axioms;

    let twitter = "twitter";
    let pixiv = "pixiv";
    proof {
        reveal_strlit("twitter");
        reveal_strlit("pixiv");
    }
    assert(twitter@ =~= seq!['t', 'w', 'i', 't', 't', 'e', 'r']);
    assert(pixiv@ =~= seq!['p', 'i', 'x', 'i', 'v']);
    let mut out: Vec<DownloadTask> = Vec::new();
    let mut i: usize = 0;
    while i < records.len()
        invariant
            i <= records@.len(),
            out@.len() == i,
            twitter@ =~= seq!['t', 'w', 'i', 't', 't', 'e', 'r'],
            pixiv@ =~= seq!['p', 'i', 'x', 'i', 'v'],
            forall|k: int|
                0 <= k < records@.len() ==> (#[trigger] records@[k]).0.source is Some
                    && records@[k].0.post_id_int is Some && records@[k].1.remote_url is Some,
            forall|k: int|
                0 <= k < i ==> is_download_task_for(
                    #[trigger] out@[k],
                    records@[k],
                    twitter_users@,
                    pixiv_users@,
                    root_dir@,
                ),
        decreases records@.len() - i,
    {
        let (work, image) = (&records[i].0, &records[i].1);
        assert(records@[i as int].0.source is Some);
        let community = match &work.source {
            Some(s) => s,
            None => {
                assert(false);
                return out;
            },
        };
        let post_id = match work.post_id_int {
            Some(p) => p,
            None => {
                assert(false);
                return out;
            },
        };
        let url = match &image.remote_url {
            Some(u) => u.clone(),
            None => {
                assert(false);
                return out;
            },
        };
        let user: Option<i64> = if text_eq(community.as_str(), twitter) {
            match twitter_users.get(&post_id) {
                Some(u) => Some(*u),
                None => None,
            }
        } else if text_eq(community.as_str(), pixiv) {
            match pixiv_users.get(&post_id) {
                Some(u) => Some(*u),
                None => None,
            }
        } else {
            None
        };
        let subdir = match user {
            Some(u) => {
                let d = i64_to_decimal(u);
                path_join(community.as_str(), d.as_str())
            },
            None => community.clone(),
        };
        out.push(
            DownloadTask {
                url,
                root_dir: text_of(root_dir),
                subdir,
                filename: image.filename.clone(),
                image_id: image.id,
            },
        );
        i += 1;
    }
    out
}

} // verus!
