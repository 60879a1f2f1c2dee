//! Gallery community: download tasks for galleries, gallery records and previews, the
//! previews kept from earlier fetches, and the decisions taken when a gallery feed is
//! saved and fetched.
use vstd::prelude::*;

use std::collections::{HashMap, HashSet};

use crate::decimal::{i32_to_decimal, i64_to_decimal, int_decimal, u64_to_decimal};
use crate::error::{framed, Error};
use crate::feed::{
    feed_metadata, any_post_known, fresh_post_ids, fresh_posts, some_post_known, id_texts, ids_to_strings, join_comma, join_with_comma,
    object_fields_are, object_scheme, views, AccountMetadata, CommunityMetadata, Direction, FeedMetadata, FieldKind,
    MediaExtra, MediaView, SaveResult, Scheme, UserView,
};
use crate::library::{clone_opt_string, Image, RemoteImage, RemoteWork};
use crate::text::{push_char, text_eq, text_of};

verus! {

/// One image of a gallery to download.
#[derive(Debug)]
pub struct PandaImageTask {
    pub gid: i64,
    pub index: i32,
    pub token: String,
    pub image_id: Option<i32>,
    pub downloaded: bool,
}

impl Clone for PandaImageTask {
    fn clone(&self) -> (r: Self)
        ensures
            r == *self,
    {
        PandaImageTask {
            gid: self.gid,
            index: self.index,
            token: self.token.clone(),
            image_id: self.image_id,
            downloaded: self.downloaded,
        }
    }
}

/// A gallery to download, with one task per known image.
#[derive(Debug)]
pub struct PandaDownloadTask {
    pub gid: i64,
    pub token: String,
    pub title: String,
    pub has_detail: bool,
    pub media_count: i32,
    pub work_id: i32,
    pub image_tasks: Vec<PandaImageTask>,
}

// MARK: Galleries and previews

/// A gallery as stored, with what the logic reads of it.
#[derive(Debug)]
pub struct PandaGallery {
    pub id: i64,
    pub token: String,
    pub title: String,
    pub media_count: i32,
    pub english_title: Option<String>,
    pub parent: Option<String>,
    pub visible: Option<bool>,
    pub language: Option<String>,
    pub file_size: Option<i32>,
}

impl PandaGallery {
    /// Whether the gallery's details (English title, parent, visibility, language and
    /// file size) have all been fetched.
    pub fn has_detail(&self) -> (r: bool)
        ensures
            r == (self.english_title is Some && self.parent is Some && self.visible is Some
                && self.language is Some && self.file_size is Some),
    {
        self.english_title.is_some() && self.parent.is_some() && self.visible.is_some()
            && self.language.is_some() && self.file_size.is_some()
    }
}

/// A preview of one image of a gallery, as stored.
#[derive(Debug)]
pub struct PandaMedia {
    pub gallery_id: i64,
    pub media_index: i32,
    pub token: String,
    pub thumbnail_url: Option<String>,
    pub url: Option<String>,
    pub filename: Option<String>,
    pub file_size: Option<i32>,
    pub width: Option<i32>,
    pub height: Option<i32>,
}

/// The ID of a gallery image as the client sees it: `<gallery>-<index>`.
pub fn media_id(gallery_id: i64, media_index: i32) -> (r: String)
    ensures
        r@ == int_decimal(gallery_id as int) + seq!['-'] + int_decimal(media_index as int),
{
    let mut s = i64_to_decimal(gallery_id);
    push_char(&mut s, '-');
    let d = i32_to_decimal(media_index);
    s.append(d.as_str());
    s
}

/// A stored gallery preview as the client sees it: its ID `<gallery>-<index>`, the
/// gallery as the post, what is known of the image, and its token.
pub fn panda_media_view(m: PandaMedia) -> (r: MediaView)
    ensures
        r.media_id@ == int_decimal(m.gallery_id as int) + seq!['-'] + int_decimal(m.media_index as int),
        r.community@ == "panda"@,
        r.post_id@ == int_decimal(m.gallery_id as int),
        r.page_index == m.media_index,
        r.url == m.url,
        r.width == m.width,
        r.height == m.height,
        r.thumbnail_url == m.thumbnail_url,
        r.extra == Some(MediaExtra::Panda { token: m.token }),
{
    MediaView {
        media_id: media_id(m.gallery_id, m.media_index),
        community: text_of("panda"),
        post_id: i64_to_decimal(m.gallery_id),
        page_index: m.media_index,
        url: m.url,
        width: m.width,
        height: m.height,
        thumbnail_url: m.thumbnail_url,
        extra: Some(MediaExtra::Panda { token: m.token }),
    }
}

/// An artist of the gallery community, shown as a user: the name is its ID, and it is
/// found by the tag `artist:<name>`.
pub fn artist_view(artist: &str) -> (r: UserView)
    ensures
        r.user_id@ == artist@,
        r.community@ == seq!['p', 'a', 'n', 'd', 'a'],
        r.name matches Some(n) && n@ == artist@,
        r.tag_name matches Some(t) && t@ == seq!['a', 'r', 't', 'i', 's', 't', ':'] + artist@,
        r.username is None,
        r.avatar_url is None,
        r.description is None,
        r.url is None,
        r.post_count is None,
{
    proof {
        reveal_strlit("panda");
        reveal_strlit("artist:");
    }
    assert("panda"@ =~= seq!['p', 'a', 'n', 'd', 'a']);
    assert("artist:"@ =~= seq!['a', 'r', 't', 'i', 's', 't', ':']);
    let mut tag = text_of("artist:");
    tag.append(artist);
    UserView {
        user_id: text_of(artist),
        community: text_of("panda"),
        name: Some(text_of(artist)),
        username: None,
        tag_name: Some(tag),
        avatar_url: None,
        description: None,
        url: None,
        post_count: None,
    }
}

/// Whether an image has been downloaded: it has a path or a thumbnail.
pub open spec fn image_downloaded(image: Image) -> bool {
    image.path is Some || image.thumbnail_path is Some
}

/// The image at a page index among the given images: the last one with that index.
pub open spec fn image_at(images: Seq<Image>, index: i32) -> Option<Image>
    decreases images.len(),
{
    if images.len() == 0 {
        None
    } else if images.last().page_index == Some(index) {
        Some(images.last())
    } else {
        image_at(images.drop_last(), index)
    }
}

/// The image task of a stored preview, with the image recorded at its index, if any.
pub open spec fn task_for_media(gid: i64, m: PandaMedia, image: Option<Image>) -> PandaImageTask {
    PandaImageTask {
        gid,
        index: m.media_index,
        token: m.token,
        image_id: match image {
            Some(i) => Some(i.id),
            None => None,
        },
        downloaded: match image {
            Some(i) => image_downloaded(i),
            None => false,
        },
    }
}

/// The image found at a page index has that index and is one of the images; one is
/// found whenever some image has the index.
pub proof fn law_image_at_has_the_index(images: Seq<Image>, index: i32, k: int)
    ensures
        image_at(images, index) matches Some(img) ==> img.page_index == Some(index) && images.contains(img),
        0 <= k < images.len() && images[k].page_index == Some(index) ==> image_at(images, index) is Some,
    decreases images.len(),
{
    if images.len() > 0 {
        let rest = images.drop_last();
        if images.last().page_index != Some(index) {
            law_image_at_has_the_index(rest, index, k);
            if let Some(img) = image_at(rest, index) {
                let j = choose|j: int| 0 <= j < rest.len() && rest[j] == img;
                assert(images[j] == img);
            }
            if 0 <= k < rest.len() {
                assert(rest[k] == images[k]);
            }
        } else {
            assert(images[images.len() - 1] == images.last());
        }
    }
}

/// The image task of a preview is for the preview's index and token; it counts as
/// downloaded only when an image is recorded at that index with a file or a thumbnail,
/// and then names that image.
pub proof fn law_media_task_is_downloaded_only_with_a_file(gid: i64, m: PandaMedia, images: Seq<Image>)
    ensures
        ({
            let t = task_for_media(gid, m, image_at(images, m.media_index));
            &&& t.gid == gid
            &&& t.index == m.media_index
            &&& t.token == m.token
            &&& t.downloaded <==> (image_at(images, m.media_index) matches Some(img) && (img.path is Some
                || img.thumbnail_path is Some))
            &&& t.image_id is Some <==> image_at(images, m.media_index) is Some
            &&& image_at(images, m.media_index) matches Some(img) ==> t.image_id == Some(img.id)
        }),
{
}

fn find_image(images: &Vec<Image>, index: i32) -> (r: Option<usize>)
    ensures
        match r {
            Some(k) => k < images@.len() && image_at(images@, index) == Some(images@[k as int]),
            None => image_at(images@, index) is None,
        },
{
    let mut k: usize = images.len();
    assert(images@.take(images@.len() as int) =~= images@);
    while k > 0
        invariant
            k <= images@.len(),
            image_at(images@, index) == image_at(images@.take(k as int), index),
        decreases k,
    {
        assert(images@.take(k as int).drop_last() =~= images@.take(k - 1));
        assert(images@.take(k as int).last() == images@[k - 1]);
        if images[k - 1].page_index == Some(index) {
            return Some(k - 1);
        }
        k -= 1;
    }
    None
}

fn media_task(gid: i64, m: &PandaMedia, images: &Vec<Image>) -> (r: PandaImageTask)
    ensures
        r == task_for_media(gid, *m, image_at(images@, m.media_index)),
{
    match find_image(images, m.media_index) {
        Some(k) => {
            let image = &images[k];
            PandaImageTask {
                gid,
                index: m.media_index,
                token: m.token.clone(),
                image_id: Some(image.id),
                downloaded: image.path.is_some() || image.thumbnail_path.is_some(),
            }
        },
        None => PandaImageTask {
            gid,
            index: m.media_index,
            token: m.token.clone(),
            image_id: None,
            downloaded: false,
        },
    }
}

/// Whether every one of the images is downloaded (so also when there are none).
pub open spec fn all_downloaded(images: Seq<Image>) -> bool {
    forall|i: int| 0 <= i < images.len() ==> image_downloaded(#[trigger] images[i])
}

/// An image with neither a file nor a thumbnail, at any position, keeps the images
/// from counting as all downloaded.
pub proof fn law_missing_image_is_not_downloaded(images: Seq<Image>, i: int)
    requires
        0 <= i < images.len(),
        images[i].path is None,
        images[i].thumbnail_path is None,
    ensures
        !all_downloaded(images),
{
    assert(!image_downloaded(images[i]));
}

/// Images that each have a file or a thumbnail count as all downloaded.
pub proof fn law_images_with_files_are_downloaded(images: Seq<Image>)
    requires
        forall|i: int| 0 <= i < images.len() ==> (#[trigger] images[i]).path is Some || images[i].thumbnail_path is Some,
    ensures
        all_downloaded(images),
{
}

/// The download task of one gallery, from its work's images and its stored previews:
/// one image task per preview, tied to the image recorded at the preview's index. A
/// gallery whose images are all downloaded already gets the error
/// `Panda gallery <gid> already downloaded`.
pub fn download_task_for_gallery(
    gallery: &PandaGallery,
    work_id: i32,
    images: &Vec<Image>,
    media: &Vec<PandaMedia>,
) -> (r: Result<PandaDownloadTask, Error>)
    ensures
        (exists|i: int|
            0 <= i < images@.len() && (#[trigger] images@[i]).path is None && images@[i].thumbnail_path is None)
            ==> r is Ok,
        (forall|i: int| 0 <= i < images@.len() ==> (#[trigger] images@[i]).path is Some || images@[i].thumbnail_path is Some)
            ==> r is Err,
        all_downloaded(images@) ==> (r matches Err(Error::ObjectAlreadyExists(m)) && m@ == seq![
            'P',
            'a',
            'n',
            'd',
            'a',
            ' ',
            'g',
            'a',
            'l',
            'l',
            'e',
            'r',
            'y',
            ' ',
        ] + int_decimal(gallery.id as int) + seq![
            ' ',
            'a',
            'l',
            'r',
            'e',
            'a',
            'd',
            'y',
            ' ',
            'd',
            'o',
            'w',
            'n',
            'l',
            'o',
            'a',
            'd',
            'e',
            'd',
        ]),
        !all_downloaded(images@) ==> (r matches Ok(t) && t.gid == gallery.id && t.token == gallery.token
            && t.title == gallery.title && t.has_detail == (gallery.english_title is Some
            && gallery.parent is Some && gallery.visible is Some && gallery.language is Some
            && gallery.file_size is Some) && t.media_count == gallery.media_count && t.work_id == work_id
            && t.image_tasks@.len() == media@.len() && forall|i: int|
            0 <= i < media@.len() ==> #[trigger] t.image_tasks@[i] == task_for_media(
                gallery.id,
                media@[i],
                image_at(images@, media@[i].media_index),
            )),
{
    let mut all = true;
    let mut i: usize = 0;
    while i < images.len()
        invariant
            i <= images@.len(),
            all == forall|k: int| 0 <= k < i ==> image_downloaded(#[trigger] images@[k]),
        decreases images@.len() - i,
    {
        if !(images[i].path.is_some() || images[i].thumbnail_path.is_some()) {
            all = false;
        }
        i += 1;
    }
    if all {
        let prefix = "Panda gallery ";
        let suffix = " already downloaded";
        proof {
            reveal_strlit("Panda gallery ");
            reveal_strlit(" already downloaded");
        }
        let mut m = text_of(prefix);
        let d = i64_to_decimal(gallery.id);
        m.append(d.as_str());
        m.append(suffix);
        assert(m@ =~= seq!['P', 'a', 'n', 'd', 'a', ' ', 'g', 'a', 'l', 'l', 'e', 'r', 'y', ' ']
            + int_decimal(gallery.id as int) + seq![
            ' ',
            'a',
            'l',
            'r',
            'e',
            'a',
            'd',
            'y',
            ' ',
            'd',
            'o',
            'w',
            'n',
            'l',
            'o',
            'a',
            'd',
            'e',
            'd',
        ]);
        return Err(Error::ObjectAlreadyExists(m));
    }
    let mut tasks: Vec<PandaImageTask> = Vec::new();
    let mut j: usize = 0;
    while j < media.len()
        invariant
            j <= media@.len(),
            tasks@.len() == j,
            forall|k: int|
                0 <= k < j ==> #[trigger] tasks@[k] == task_for_media(
                    gallery.id,
                    media@[k],
                    image_at(images@, media@[k].media_index),
                ),
        decreases media@.len() - j,
    {
        tasks.push(media_task(gallery.id, &media[j], images));
        j += 1;
    }
    Ok(
        PandaDownloadTask {
            gid: gallery.id,
            token: gallery.token.clone(),
            title: gallery.title.clone(),
            has_detail: gallery.has_detail(),
            media_count: gallery.media_count,
            work_id,
            image_tasks: tasks,
        },
    )
}

/// The preview stored for an image of a gallery: the last one with that gallery and index.
pub open spec fn media_at(media: Seq<PandaMedia>, gid: i64, index: i32) -> Option<PandaMedia>
    decreases media.len(),
{
    if media.len() == 0 {
        None
    } else if media.last().gallery_id == gid && media.last().media_index == index {
        Some(media.last())
    } else {
        media_at(media.drop_last(), gid, index)
    }
}

/// The image recorded for a work at a page index: the last one with that work and index.
pub open spec fn work_image_at(images: Seq<Image>, work_id: i32, index: i32) -> Option<Image>
    decreases images.len(),
{
    if images.len() == 0 {
        None
    } else if images.last().work_id == work_id && images.last().page_index == Some(index) {
        Some(images.last())
    } else {
        work_image_at(images.drop_last(), work_id, index)
    }
}

/// The image tasks of a gallery, index by index from 0 below its media count, for the
/// indices that have a stored preview.
pub open spec fn gallery_image_tasks(
    gid: i64,
    work_id: i32,
    count: int,
    media: Seq<PandaMedia>,
    images: Seq<Image>,
) -> Seq<PandaImageTask>
    decreases count,
{
    if count <= 0 {
        Seq::empty()
    } else {
        let rest = gallery_image_tasks(gid, work_id, count - 1, media, images);
        let index = (count - 1) as i32;
        match media_at(media, gid, index) {
            Some(m) => rest.push(task_for_media(gid, m, work_image_at(images, work_id, index))),
            None => rest,
        }
    }
}

/// The preview found for a gallery's index is one of that gallery at that index, and is
/// among the stored previews; one is found whenever such a preview is stored.
pub proof fn law_media_at_has_the_gallery_and_index(media: Seq<PandaMedia>, gid: i64, index: i32, k: int)
    ensures
        media_at(media, gid, index) matches Some(m) ==> m.gallery_id == gid && m.media_index == index
            && media.contains(m),
        0 <= k < media.len() && media[k].gallery_id == gid && media[k].media_index == index ==> media_at(
            media,
            gid,
            index,
        ) is Some,
    decreases media.len(),
{
    if media.len() > 0 {
        let rest = media.drop_last();
        if !(media.last().gallery_id == gid && media.last().media_index == index) {
            law_media_at_has_the_gallery_and_index(rest, gid, index, k);
            if let Some(m) = media_at(rest, gid, index) {
                let j = choose|j: int| 0 <= j < rest.len() && rest[j] == m;
                assert(media[j] == m);
            }
            if 0 <= k < rest.len() {
                assert(rest[k] == media[k]);
            }
        } else {
            assert(media[media.len() - 1] == media.last());
        }
    }
}

/// The image found for a work's page index belongs to that work and has that index.
pub proof fn law_work_image_at_has_the_work_and_index(images: Seq<Image>, work_id: i32, index: i32)
    ensures
        work_image_at(images, work_id, index) matches Some(img) ==> img.work_id == work_id && img.page_index == Some(
            index,
        ),
    decreases images.len(),
{
    if images.len() > 0 {
        law_work_image_at_has_the_work_and_index(images.drop_last(), work_id, index);
    }
}

/// A gallery's image tasks go by rising index below its media count, one for each
/// index with a stored preview and none other; each carries the gallery, the preview's
/// token, and counts as downloaded exactly when the work's image at that index has a
/// file or a thumbnail.
pub proof fn law_gallery_image_tasks_follow_previews(
    gid: i64,
    work_id: i32,
    count: int,
    media: Seq<PandaMedia>,
    images: Seq<Image>,
)
    requires
        count <= i32::MAX + 1,
    ensures
        ({
            let tasks = gallery_image_tasks(gid, work_id, count, media, images);
            &&& forall|k: int|
                0 <= k < tasks.len() ==> {
                    &&& (#[trigger] tasks[k]).gid == gid
                    &&& 0 <= tasks[k].index < count
                    &&& media_at(media, gid, tasks[k].index) matches Some(m) && tasks[k].token == m.token
                    &&& tasks[k].downloaded <==> (work_image_at(images, work_id, tasks[k].index) matches Some(img) && (
                    img.path is Some || img.thumbnail_path is Some))
                }
            &&& forall|a: int, b: int| 0 <= a < b < tasks.len() ==> (#[trigger] tasks[a]).index < (#[trigger] tasks[b]).index
            &&& forall|i: i32| 0 <= i < count && media_at(media, gid, i) is Some ==> exists|k: int|
                0 <= k < tasks.len() && (#[trigger] tasks[k]).index == i
        }),
    decreases count,
{
    if count > 0 {
        law_gallery_image_tasks_follow_previews(gid, work_id, count - 1, media, images);
        let rest = gallery_image_tasks(gid, work_id, count - 1, media, images);
        let tasks = gallery_image_tasks(gid, work_id, count, media, images);
        let index = (count - 1) as i32;
        law_media_at_has_the_gallery_and_index(media, gid, index, 0);
        if media_at(media, gid, index) is Some {
            assert(tasks == rest.push(task_for_media(gid, media_at(media, gid, index)->0, work_image_at(images, work_id, index))));
            assert forall|k: int| 0 <= k < rest.len() implies tasks[k] == rest[k] by {}
            assert forall|i: i32| 0 <= i < count && media_at(media, gid, i) is Some implies exists|k: int|
                0 <= k < tasks.len() && (#[trigger] tasks[k]).index == i by {
                if i == index {
                    assert(tasks[rest.len() as int].index == i);
                } else {
                    let k = choose|k: int| 0 <= k < rest.len() && (#[trigger] rest[k]).index == i;
                    assert(tasks[k] == rest[k]);
                }
            }
        }
    }
}

fn find_media(media: &Vec<PandaMedia>, gid: i64, index: i32) -> (r: Option<usize>)
    ensures
        match r {
            Some(k) => k < media@.len() && media_at(media@, gid, index) == Some(media@[k as int]),
            None => media_at(media@, gid, index) is None,
        },
{
    let mut k: usize = media.len();
    assert(media@.take(media@.len() as int) =~= media@);
    while k > 0
        invariant
            k <= media@.len(),
            media_at(media@, gid, index) == media_at(media@.take(k as int), gid, index),
        decreases k,
    {
        assert(media@.take(k as int).drop_last() =~= media@.take(k - 1));
        assert(media@.take(k as int).last() == media@[k - 1]);
        if media[k - 1].gallery_id == gid && media[k - 1].media_index == index {
            return Some(k - 1);
        }
        k -= 1;
    }
    None
}

fn find_work_image(images: &Vec<Image>, work_id: i32, index: i32) -> (r: Option<usize>)
    ensures
        match r {
            Some(k) => k < images@.len() && work_image_at(images@, work_id, index) == Some(images@[k as int]),
            None => work_image_at(images@, work_id, index) is None,
        },
{
    let mut k: usize = images.len();
    assert(images@.take(images@.len() as int) =~= images@);
    while k > 0
        invariant
            k <= images@.len(),
            work_image_at(images@, work_id, index) == work_image_at(images@.take(k as int), work_id, index),
        decreases k,
    {
        assert(images@.take(k as int).drop_last() =~= images@.take(k - 1));
        assert(images@.take(k as int).last() == images@[k - 1]);
        if images[k - 1].work_id == work_id && images[k - 1].page_index == Some(index) {
            return Some(k - 1);
        }
        k -= 1;
    }
    None
}

/// The download tasks of galleries with images still to download, one per gallery in
/// order. Each gallery's work must be known; its image tasks follow
/// `gallery_image_tasks`.
pub fn combine_download_tasks(
    galleries: &Vec<PandaGallery>,
    work_ids: &HashMap<i64, i32>,
    media: &Vec<PandaMedia>,
    images: &Vec<Image>,
) -> (r: Vec<PandaDownloadTask>)
    requires
        forall|i: int| 0 <= i < galleries@.len() ==> work_ids@.contains_key(#[trigger] galleries@[i].id),
    ensures
        r@.len() == galleries@.len(),
        forall|i: int|
            0 <= i < r@.len() ==> {
                let g = #[trigger] galleries@[i];
                let t = r@[i];
                &&& t.gid == g.id
                &&& t.token == g.token
                &&& t.title == g.title
                &&& t.media_count == g.media_count
                &&& t.work_id == work_ids@[g.id]
                &&& t.has_detail == (g.english_title is Some && g.parent is Some && g.visible is Some
                    && g.language is Some && g.file_size is Some)
                &&& t.image_tasks@ == gallery_image_tasks(
                    g.id,
                    work_ids@[g.id],
                    g.media_count as int,
                    media@,
                    images@,
                )
            },
{
    broadcast use vstd::std_specs::hash::group_hash_axioms;

    let mut out: Vec<PandaDownloadTask> = Vec::new();
    let mut i: usize = 0;
    while i < galleries.len()
        invariant
            i <= galleries@.len(),
            out@.len() == i,
            forall|k: int| 0 <= k < galleries@.len() ==> work_ids@.contains_key(#[trigger] galleries@[k].id),
            forall|k: int|
                0 <= k < i ==> {
                    let g = #[trigger] galleries@[k];
                    let t = out@[k];
                    &&& t.gid == g.id
                    &&& t.token == g.token
                    &&& t.title == g.title
                    &&& t.media_count == g.media_count
                    &&& t.work_id == work_ids@[g.id]
                    &&& t.has_detail == (g.english_title is Some && g.parent is Some && g.visible is Some
                        && g.language is Some && g.file_size is Some)
                    &&& t.image_tasks@ == gallery_image_tasks(
                        g.id,
                        work_ids@[g.id],
                        g.media_count as int,
                        media@,
                        images@,
                    )
                },
        decreases galleries@.len() - i,
    {
        let gallery = &galleries[i];
        assert(work_ids@.contains_key(galleries@[i as int].id));
        let work_id: i32 = match work_ids.get(&gallery.id) {
            Some(w) => *w,
            None => {
                assert(false);
                return out;
            },
        };
        let mut tasks: Vec<PandaImageTask> = Vec::new();
        let mut index: i32 = 0;
        while index < gallery.media_count
            invariant
                0 <= index,
                index <= gallery.media_count || index == 0,
                tasks@ == gallery_image_tasks(gallery.id, work_id, index as int, media@, images@),
            decreases gallery.media_count - index,
        {
            let ghost before = tasks@;
            assert(gallery_image_tasks(gallery.id, work_id, index + 1, media@, images@) == match media_at(
                media@,
                gallery.id,
                index,
            ) {
                Some(m) => before.push(task_for_media(gallery.id, m, work_image_at(images@, work_id, index))),
                None => before,
            });
            match find_media(media, gallery.id, index) {
                Some(k) => {
                    let m = &media[k];
                    let task = match find_work_image(images, work_id, index) {
                        Some(q) => {
                            let image = &images[q];
                            PandaImageTask {
                                gid: gallery.id,
                                index: m.media_index,
                                token: m.token.clone(),
                                image_id: Some(image.id),
                                downloaded: image.path.is_some() || image.thumbnail_path.is_some(),
                            }
                        },
                        None => PandaImageTask {
                            gid: gallery.id,
                            index: m.media_index,
                            token: m.token.clone(),
                            image_id: None,
                            downloaded: false,
                        },
                    };
                    tasks.push(task);
                },
                None => {},
            }
            index += 1;
        }
        assert(tasks@ == gallery_image_tasks(gallery.id, work_id, gallery.media_count as int, media@, images@));
        out.push(
            PandaDownloadTask {
                gid: gallery.id,
                token: gallery.token.clone(),
                title: gallery.title.clone(),
                has_detail: gallery.has_detail(),
                media_count: gallery.media_count,
                work_id,
                image_tasks: tasks,
            },
        );
        i += 1;
    }
    out
}

/// The remote work of a gallery for the library: the whole gallery as one work named
/// after its title, with one image per preview whose URL and file name are known, at
/// the preview's index.
pub open spec fn gallery_images(media: Seq<PandaMedia>) -> Seq<RemoteImage>
    decreases media.len(),
{
    if media.len() == 0 {
        Seq::empty()
    } else {
        let rest = gallery_images(media.drop_last());
        let m = media.last();
        if m.url is Some && m.filename is Some {
            rest.push(RemoteImage { url: m.url->0, filename: m.filename->0, page_index: Some(m.media_index) })
        } else {
            rest
        }
    }
}

// MARK: Previews kept from earlier fetches

/// A preview of a gallery image kept from an earlier fetch.
#[derive(Debug)]
pub struct CachedPreview {
    pub index: u32,
    pub token: String,
    pub thumbnail_url: String,
}

impl Clone for CachedPreview {
    fn clone(&self) -> (r: Self)
        ensures
            r == *self,
    {
        CachedPreview { index: self.index, token: self.token.clone(), thumbnail_url: self.thumbnail_url.clone() }
    }
}

/// The previews kept for a gallery after a page of them was fetched: the fetched ones
/// when none were kept; else the kept ones, then the fetched ones whose index no kept
/// preview has.
pub fn merge_cached_previews(cached: Option<Vec<CachedPreview>>, fetched: &Vec<CachedPreview>) -> (r: Vec<
    CachedPreview,
>)
    ensures
        r@ == match cached {
            None => fetched@,
            Some(c) => c@ + fetched@.filter(|p: CachedPreview| !preview_index_seen(c@, p.index)),
        },
{
    match cached {
        None => {
            let r = fetched.clone();
            assert(r@ =~= fetched@);
            r
        },
        Some(mut kept) => {
            let ghost c = kept@;
            let mut known: HashSet<u32> = HashSet::new();
            let mut k: usize = 0;
            while k < kept.len()
                invariant
                    kept@ == c,
                    k <= c.len(),
                    forall|i: u32| #[trigger] known@.contains(i) <==> preview_index_seen(c.take(k as int), i),
                decreases c.len() - k,
            {
                assert forall|i: u32| #[trigger] preview_index_seen(c.take(k + 1), i) == (preview_index_seen(c.take(k as int), i) || c[k as int].index == i) by {
                    if preview_index_seen(c.take(k + 1), i) {
                        let q = choose|q: int| 0 <= q < k + 1 && #[trigger] c.take(k + 1)[q].index == i;
                        if q < k {
                            assert(c.take(k as int)[q].index == i);
                        }
                    }
                    if preview_index_seen(c.take(k as int), i) {
                        let q = choose|q: int| 0 <= q < k && #[trigger] c.take(k as int)[q].index == i;
                        assert(c.take(k + 1)[q].index == i);
                    }
                    if c[k as int].index == i {
                        assert(c.take(k + 1)[k as int].index == i);
                    }
                }
                known.insert(kept[k].index);
                k += 1;
            }
            assert(c.take(c.len() as int) =~= c);
            let mut j: usize = 0;
            while j < fetched.len()
                invariant
                    j <= fetched@.len(),
                    forall|i: u32| #[trigger] known@.contains(i) <==> preview_index_seen(c, i),
                    kept@ == c + fetched@.take(j as int).filter(|p: CachedPreview| !preview_index_seen(c, p.index)),
                decreases fetched@.len() - j,
            {
                reveal_with_fuel(Seq::<_>::filter, 1);
                assert(fetched@.take(j + 1).drop_last() =~= fetched@.take(j as int));
                if !known.contains(&fetched[j].index) {
                    kept.push(fetched[j].clone());
                }
                j += 1;
            }
            assert(fetched@.take(fetched@.len() as int) =~= fetched@);
            kept
        },
    }
}

/// The first preview with the index among the kept ones.
pub open spec fn first_preview_at(previews: Seq<CachedPreview>, index: u32) -> Option<CachedPreview>
    decreases previews.len(),
{
    if previews.len() == 0 {
        None
    } else if previews[0].index == index {
        Some(previews[0])
    } else {
        first_preview_at(previews.drop_first(), index)
    }
}

/// The token of a gallery image from the kept previews: that of the first preview with
/// its index, if any.
pub fn cached_preview_token(previews: &Vec<CachedPreview>, index: u32) -> (r: Option<String>)
    ensures
        r == match first_preview_at(previews@, index) {
            Some(p) => Some(p.token),
            None => None::<String>,
        },
{
    let mut k: usize = 0;
    assert(previews@.skip(0) =~= previews@);
    while k < previews.len()
        invariant
            k <= previews@.len(),
            first_preview_at(previews@, index) == first_preview_at(previews@.skip(k as int), index),
        decreases previews@.len() - k,
    {
        assert(previews@.skip(k as int).drop_first() =~= previews@.skip(k + 1));
        assert(previews@.skip(k as int)[0] == previews@[k as int]);
        if previews[k].index == index {
            return Some(previews[k].token.clone());
        }
        k += 1;
    }
    None
}

/// The error for a gallery image whose token is known nowhere: `Media <gid>-<page> not found`.
pub fn media_not_found_error(gid: u64, page: u32) -> (r: Error)
    ensures
        r matches Error::ObjectNotFound(m) && m@ == "Media "@ + int_decimal(gid as int) + "-"@ + int_decimal(
            page as int,
        ) + " not found"@,
{
    let g = u64_to_decimal(gid);
    let p = u64_to_decimal(page as u64);
    let mut m = framed("Media ", g.as_str(), "-");
    m.append(p.as_str());
    m.append(" not found");
    Error::ObjectNotFound(m)
}

/// The error for a gallery whose token is known nowhere: `Gallery <gid> not found`.
pub fn gallery_not_found_error(gid: u64) -> (r: Error)
    ensures
        r matches Error::ObjectNotFound(m) && m@ == "Gallery "@ + int_decimal(gid as int) + " not found"@,
{
    let g = u64_to_decimal(gid);
    Error::ObjectNotFound(framed("Gallery ", g.as_str(), " not found"))
}

/// Whether a fetched image joins the kept images of its gallery: when none with its
/// index is kept yet.
pub fn image_joins_cache(kept_indices: &Vec<u32>, index: u32) -> (r: bool)
    ensures
        r == !kept_indices@.contains(index),
{
    let mut k: usize = 0;
    while k < kept_indices.len()
        invariant
            k <= kept_indices@.len(),
            forall|q: int| 0 <= q < k ==> kept_indices@[q] != index,
        decreases kept_indices@.len() - k,
    {
        if kept_indices[k] == index {
            assert(kept_indices@[k as int] == index);
            return false;
        }
        k += 1;
    }
    true
}

/// Where a listing of galleries goes on from: the offset of the next (older) page, if
/// the listing has one.
pub fn listing_next_offset(next_page_offset: Option<GalleryListOffset>) -> (r: Option<String>)
    ensures
        r == match next_page_offset {
            Some(GalleryListOffset::OlderThan(o)) => Some(o),
            _ => None::<String>,
        },
{
    match next_page_offset {
        Some(GalleryListOffset::OlderThan(o)) => Some(o),
        _ => None,
    }
}

/// The stored preview at an index: the last stored one whose index it is.
pub open spec fn stored_media_at(stored: Seq<PandaMedia>, index: u32) -> Option<PandaMedia>
    decreases stored.len(),
{
    if stored.len() == 0 {
        None
    } else if stored.last().media_index as u32 == index {
        Some(stored.last())
    } else {
        stored_media_at(stored.drop_last(), index)
    }
}

/// Whether some cached preview has the index.
pub open spec fn preview_index_seen(previews: Seq<CachedPreview>, index: u32) -> bool {
    exists|k: int| 0 <= k < previews.len() && #[trigger] previews[k].index == index
}

/// The stored preview made from a cached one: its index, token and thumbnail, and
/// nothing else known yet.
pub open spec fn media_from_preview(gid: i64, p: CachedPreview) -> PandaMedia {
    PandaMedia {
        gallery_id: gid,
        media_index: p.index as i32,
        token: p.token,
        thumbnail_url: Some(p.thumbnail_url),
        url: None,
        filename: None,
        file_size: None,
        width: None,
        height: None,
    }
}

/// The previews stored from the cache, in cache order: one for each cached preview
/// whose index is neither stored nor taken by an earlier cached preview.
pub open spec fn cached_new_media(gid: i64, stored: Seq<PandaMedia>, previews: Seq<CachedPreview>) -> Seq<
    PandaMedia,
>
    decreases previews.len(),
{
    if previews.len() == 0 {
        Seq::empty()
    } else {
        let rest = cached_new_media(gid, stored, previews.drop_last());
        let p = previews.last();
        if stored_media_at(stored, p.index) is Some || preview_index_seen(previews.drop_last(), p.index) {
            rest
        } else {
            rest.push(media_from_preview(gid, p))
        }
    }
}

/// Whether the preview at an index lacks its image URL once the cached previews are
/// stored: a stored preview's URL decides; a preview stored from the cache has none.
pub open spec fn url_missing_at(stored: Seq<PandaMedia>, previews: Seq<CachedPreview>, index: u32) -> bool {
    match stored_media_at(stored, index) {
        Some(m) => m.url is None,
        None => preview_index_seen(previews, index),
    }
}

/// What completing a gallery's previews from the cache does: the previews to store,
/// and the indices whose cached image details are written to their preview.
#[derive(Debug)]
pub struct MediaCachePlan {
    pub new_media: Vec<PandaMedia>,
    pub updated_indices: Vec<u32>,
}

fn media_of_preview(gid: i64, p: &CachedPreview) -> (r: PandaMedia)
    ensures
        r == media_from_preview(gid, *p),
{
    PandaMedia {
        gallery_id: gid,
        media_index: #[verifier::truncate] (p.index as i32),
        token: p.token.clone(),
        thumbnail_url: Some(p.thumbnail_url.clone()),
        url: None,
        filename: None,
        file_size: None,
        width: None,
        height: None,
    }
}

/// Completes a gallery's stored previews from the cache: each cached preview whose
/// index has no stored preview is stored (see `cached_new_media`), and each cached
/// image whose preview then lacks its URL is written to it, in cache order (see
/// `url_missing_at`). `cached_images` holds the indices of the cached images.
pub fn media_cache_plan(
    gallery_id: i64,
    stored: &Vec<PandaMedia>,
    previews: &Vec<CachedPreview>,
    cached_images: &Vec<u32>,
) -> (r: MediaCachePlan)
    ensures
        r.new_media@ == cached_new_media(gallery_id, stored@, previews@),
        r.updated_indices@ == cached_images@.filter(|i: u32| url_missing_at(stored@, previews@, i)),
{
    broadcast use vstd::std_specs::hash::group_hash_axioms;

    // 1. Which indices have a stored preview, and whether it lacks its URL
    let mut missing: HashMap<u32, bool> = HashMap::new();
    let mut k: usize = 0;
    while k < stored.len()
        invariant
            k <= stored@.len(),
            forall|i: u32|
                #[trigger] missing@.contains_key(i) <==> stored_media_at(stored@.take(k as int), i) is Some,
            forall|i: u32|
                #[trigger] missing@.contains_key(i) ==> missing@[i] == (stored_media_at(
                    stored@.take(k as int),
                    i,
                )->0.url is None),
        decreases stored@.len() - k,
    {
        assert(stored@.take(k + 1).drop_last() =~= stored@.take(k as int));
        assert(stored@.take(k + 1).last() == stored@[k as int]);
        let index: u32 = #[verifier::truncate] (stored[k].media_index as u32);
        missing.insert(index, stored[k].url.is_none());
        k += 1;
    }
    assert(stored@.take(stored@.len() as int) =~= stored@);

    // 2. The cached previews whose index is not taken yet
    let mut new_media: Vec<PandaMedia> = Vec::new();
    let mut j: usize = 0;
    while j < previews.len()
        invariant
            j <= previews@.len(),
            new_media@ == cached_new_media(gallery_id, stored@, previews@.take(j as int)),
            forall|i: u32|
                #[trigger] missing@.contains_key(i) <==> (stored_media_at(stored@, i) is Some || preview_index_seen(
                    previews@.take(j as int),
                    i,
                )),
            forall|i: u32|
                #[trigger] missing@.contains_key(i) ==> missing@[i] == url_missing_at(
                    stored@,
                    previews@.take(j as int),
                    i,
                ),
        decreases previews@.len() - j,
    {
        let ghost before = previews@.take(j as int);
        let ghost after = previews@.take(j + 1);
        assert(after.drop_last() =~= before);
        assert(after.last() == previews@[j as int]);
        assert forall|i: u32| #[trigger] preview_index_seen(after, i) == (preview_index_seen(before, i) || previews@[j as int].index == i) by {
            if preview_index_seen(after, i) {
                let q = choose|q: int| 0 <= q < after.len() && #[trigger] after[q].index == i;
                if q < j {
                    assert(before[q].index == i);
                }
            }
            if preview_index_seen(before, i) {
                let q = choose|q: int| 0 <= q < before.len() && #[trigger] before[q].index == i;
                assert(after[q].index == i);
            }
            if previews@[j as int].index == i {
                assert(after[j as int].index == i);
            }
        }
        let p = &previews[j];
        if !missing.contains_key(&p.index) {
            new_media.push(media_of_preview(gallery_id, p));
            missing.insert(p.index, true);
        }
        j += 1;
    }
    assert(previews@.take(previews@.len() as int) =~= previews@);

    // 3. The cached images whose preview lacks its URL
    let mut updated: Vec<u32> = Vec::new();
    let mut q: usize = 0;
    while q < cached_images.len()
        invariant
            q <= cached_images@.len(),
            forall|i: u32|
                #[trigger] missing@.contains_key(i) <==> (stored_media_at(stored@, i) is Some || preview_index_seen(
                    previews@,
                    i,
                )),
            forall|i: u32|
                #[trigger] missing@.contains_key(i) ==> missing@[i] == url_missing_at(stored@, previews@, i),
            updated@ == cached_images@.take(q as int).filter(|i: u32| url_missing_at(stored@, previews@, i)),
        decreases cached_images@.len() - q,
    {
        reveal_with_fuel(Seq::<_>::filter, 1);
        assert(cached_images@.take(q + 1).drop_last() =~= cached_images@.take(q as int));
        let index = cached_images[q];
        match missing.get(&index) {
            Some(m) => {
                if *m {
                    updated.push(index);
                }
            },
            None => {},
        }
        q += 1;
    }
    assert(cached_images@.take(cached_images@.len() as int) =~= cached_images@);
    MediaCachePlan { new_media, updated_indices: updated }
}

// MARK: Answers to gallery requests

/// The ID a gallery image gets from the gallery's ID and the image's index, as the
/// community gives them: `<gallery>-<index>`.
pub open spec fn fetched_media_id(gid: u64, index: u32) -> Seq<char> {
    int_decimal(gid as int) + seq!['-'] + int_decimal(index as int)
}

fn fetched_media_id_text(gid: u64, index: u32) -> (r: String)
    ensures
        r@ == fetched_media_id(gid, index),
{
    let mut s = u64_to_decimal(gid);
    push_char(&mut s, '-');
    let d = u64_to_decimal(index as u64);
    s.append(d.as_str());
    s
}

/// Whether `v` shows the fetched preview `p` of gallery `gid`: its ID, the gallery as
/// the post, its index and thumbnail, and its token; the image itself is not known yet.
pub open spec fn shows_preview(v: MediaView, gid: u64, p: CachedPreview) -> bool {
    &&& v.media_id@ == fetched_media_id(gid, p.index)
    &&& v.community@ == "panda"@
    &&& v.post_id@ == int_decimal(gid as int)
    &&& v.page_index == p.index as i32
    &&& v.url is None
    &&& v.width is None
    &&& v.height is None
    &&& v.thumbnail_url == Some(p.thumbnail_url)
    &&& v.extra == Some(MediaExtra::Panda { token: p.token })
}

/// The answer to a request for a page of a gallery's previews: one media entry per
/// fetched preview, in order, and the gallery's number of preview pages.
#[derive(Debug)]
pub struct PreviewPageAnswer {
    pub media: Vec<MediaView>,
    pub total_items: Option<i64>,
}

/// The answer to a request for a page of a gallery's previews (see `shows_preview`).
pub fn preview_page_answer(gid: u64, previews: &Vec<CachedPreview>, preview_page_count: u64) -> (r:
    PreviewPageAnswer)
    ensures
        r.media@.len() == previews@.len(),
        forall|k: int| 0 <= k < previews@.len() ==> shows_preview(#[trigger] r.media@[k], gid, previews@[k]),
        r.total_items == Some(preview_page_count as i64),
{
    let mut media: Vec<MediaView> = Vec::new();
    let mut k: usize = 0;
    while k < previews.len()
        invariant
            k <= previews@.len(),
            media@.len() == k,
            forall|q: int| 0 <= q < k ==> shows_preview(#[trigger] media@[q], gid, previews@[q]),
        decreases previews@.len() - k,
    {
        let p = &previews[k];
        media.push(
            MediaView {
                media_id: fetched_media_id_text(gid, p.index),
                community: text_of("panda"),
                post_id: u64_to_decimal(gid),
                page_index: #[verifier::truncate] (p.index as i32),
                url: None,
                width: None,
                height: None,
                thumbnail_url: Some(p.thumbnail_url.clone()),
                extra: Some(MediaExtra::Panda { token: p.token.clone() }),
            },
        );
        k += 1;
    }
    PreviewPageAnswer { media, total_items: Some(#[verifier::truncate] (preview_page_count as i64)) }
}

/// The media entry answering a request for one gallery image: its ID, the gallery as
/// the post, its index, URL and size.
pub fn fetched_image_view(gid: u64, index: u32, url: String, width: u32, height: u32) -> (r: MediaView)
    ensures
        r.media_id@ == fetched_media_id(gid, index),
        r.community@ == "panda"@,
        r.post_id@ == int_decimal(gid as int),
        r.page_index == index as i32,
        r.url == Some(url),
        r.width == Some(width as i32),
        r.height == Some(height as i32),
        r.thumbnail_url is None,
        r.extra is None,
{
    MediaView {
        media_id: fetched_media_id_text(gid, index),
        community: text_of("panda"),
        post_id: u64_to_decimal(gid),
        page_index: #[verifier::truncate] (index as i32),
        url: Some(url),
        width: Some(#[verifier::truncate] (width as i32)),
        height: Some(#[verifier::truncate] (height as i32)),
        thumbnail_url: None,
        extra: None,
    }
}

/// What the answer to a listing of galleries says of the listing: it reached its end
/// when it held no gallery; it goes on from the next (older) page's offset, if any;
/// and the total count of galleries, if the community gave one.
#[derive(Debug)]
pub struct ListingAnswer {
    pub reached_end: bool,
    pub next_offset: Option<String>,
    pub total_items: Option<i64>,
}

/// What the answer to a listing of galleries says of the listing (see `ListingAnswer`).
pub fn listing_answer(gallery_count: usize, next_page_offset: Option<GalleryListOffset>, total_count: Option<
    u64,
>) -> (r: ListingAnswer)
    ensures
        r.reached_end == (gallery_count == 0),
        r.next_offset == match next_page_offset {
            Some(GalleryListOffset::OlderThan(o)) => Some(o),
            _ => None::<String>,
        },
        r.total_items == match total_count {
            Some(c) => Some(c as i64),
            None => None::<i64>,
        },
{
    ListingAnswer {
        reached_end: gallery_count == 0,
        next_offset: listing_next_offset(next_page_offset),
        total_items: match total_count {
            Some(c) => Some(#[verifier::truncate] (c as i64)),
            None => None,
        },
    }
}

/// A tag of a listed gallery: whether it names an artist, and its name.
#[derive(Debug)]
pub struct GalleryTag {
    pub is_artist: bool,
    pub name: String,
}

/// The artists named by the tags of listed galleries, in tag order, each shown as a
/// user (see `artist_view`).
pub fn artist_users(tags: &Vec<GalleryTag>) -> (r: Vec<UserView>)
    ensures
        r@.len() == tags@.filter(|t: GalleryTag| t.is_artist).len(),
        forall|k: int|
            0 <= k < r@.len() ==> (#[trigger] r@[k]).user_id@ == tags@.filter(|t: GalleryTag| t.is_artist)[k].name@
                && r@[k].community@ == "panda"@,
{
    let mut out: Vec<UserView> = Vec::new();
    let mut i: usize = 0;
    while i < tags.len()
        invariant
            i <= tags@.len(),
            out@.len() == tags@.take(i as int).filter(|t: GalleryTag| t.is_artist).len(),
            forall|k: int|
                0 <= k < out@.len() ==> (#[trigger] out@[k]).user_id@ == tags@.take(i as int).filter(
                    |t: GalleryTag| t.is_artist,
                )[k].name@ && out@[k].community@ == "panda"@,
        decreases tags@.len() - i,
    {
        reveal_with_fuel(Seq::<_>::filter, 1);
        assert(tags@.take(i + 1).drop_last() =~= tags@.take(i as int));
        if tags[i].is_artist {
            let v = artist_view(tags[i].name.as_str());
            proof {
                reveal_strlit("panda");
            }
            assert(seq!['p', 'a', 'n', 'd', 'a'] =~= "panda"@);
            out.push(v);
        }
        i += 1;
    }
    assert(tags@.take(tags@.len() as int) =~= tags@);
    out
}

/// A gallery as a remote work to add to the library.
pub fn gallery_remote_work(gallery: &PandaGallery, media: &Vec<PandaMedia>) -> (r: RemoteWork)
    ensures
        r.source matches Some(s) && s@ == seq!['p', 'a', 'n', 'd', 'a'],
        r.post_id matches Some(p) && p@ == int_decimal(gallery.id as int),
        r.post_id_int == Some(gallery.id),
        r.page_index is None,
        r.media_count == gallery.media_count,
        r.images@ == gallery_images(media@),
        r.name == Some(gallery.title),
        r.caption is None,
{
    let mut images: Vec<RemoteImage> = Vec::new();
    let mut i: usize = 0;
    while i < media.len()
        invariant
            i <= media@.len(),
            images@ == gallery_images(media@.take(i as int)),
        decreases media@.len() - i,
    {
        assert(media@.take(i + 1).drop_last() =~= media@.take(i as int));
        let m = &media[i];
        match (&m.url, &m.filename) {
            (Some(url), Some(filename)) => {
                images.push(
                    RemoteImage { url: url.clone(), filename: filename.clone(), page_index: Some(m.media_index) },
                );
            },
            _ => {},
        }
        i += 1;
    }
    assert(media@.take(media@.len() as int) =~= media@);
    proof {
        reveal_strlit("panda");
    }
    assert("panda"@ =~= seq!['p', 'a', 'n', 'd', 'a']);
    RemoteWork {
        source: Some(text_of("panda")),
        post_id: Some(i64_to_decimal(gallery.id)),
        post_id_int: Some(gallery.id),
        page_index: None,
        media_count: gallery.media_count,
        name: Some(gallery.title.clone()),
        caption: None,
        images,
    }
}

// MARK: Gallery feeds

/// The kinds of gallery feeds.
#[derive(Debug, Clone, Copy, PartialEq, Eq, Structural)]
pub enum PandaFeedKind {
    Search,
    Watched,
    Favorites,
}

/// An offset into a list of galleries.
#[derive(Debug)]
pub enum GalleryListOffset {
    /// Galleries newer than the given one.
    NewerThan(String),
    /// Galleries older than the given one.
    OlderThan(String),
}

/// The name under which a kind of gallery feed is stored.
pub fn panda_kind_name(kind: PandaFeedKind) -> (r: String)
    ensures
        r@ == match kind {
            PandaFeedKind::Search => seq!['s', 'e', 'a', 'r', 'c', 'h'],
            PandaFeedKind::Watched => seq!['w', 'a', 't', 'c', 'h', 'e', 'd'],
            PandaFeedKind::Favorites => seq!['f', 'a', 'v', 'o', 'r', 'i', 't', 'e', 's'],
        },
{
    proof {
        reveal_strlit("search");
        reveal_strlit("watched");
        reveal_strlit("favorites");
    }
    assert("search"@ =~= seq!['s', 'e', 'a', 'r', 'c', 'h']);
    assert("watched"@ =~= seq!['w', 'a', 't', 'c', 'h', 'e', 'd']);
    assert("favorites"@ =~= seq!['f', 'a', 'v', 'o', 'r', 'i', 't', 'e', 's']);
    match kind {
        PandaFeedKind::Search => text_of("search"),
        PandaFeedKind::Watched => text_of("watched"),
        PandaFeedKind::Favorites => text_of("favorites"),
    }
}

/// A gallery feed as stored: its kind by name and the text of its search options.
#[derive(Debug)]
pub struct PandaWatchList {
    pub id: i32,
    pub name: Option<String>,
    pub watching: bool,
    pub first_fetch_limit: Option<i32>,
    pub account_id: i32,
    pub kind: String,
    pub query: Option<String>,
    pub reached_end: bool,
}

/// The kind of a stored gallery feed and the text of its search options, which the
/// gallery client reads.
#[derive(Debug)]
pub struct PandaStoredParams {
    pub kind: PandaFeedKind,
    pub query: String,
}

/// Whether `r` is what a stored gallery feed `w` holds: its kind with its query; an
/// `ObjectNotComplete` error when the query is missing, and an `UnknownField` error
/// for a kind that is none of the gallery feeds'.
pub open spec fn panda_params_read(w: PandaWatchList, r: Result<PandaStoredParams, Error>) -> bool {
    let kind = if w.kind@ == "search"@ {
        Some(PandaFeedKind::Search)
    } else if w.kind@ == "watched"@ {
        Some(PandaFeedKind::Watched)
    } else if w.kind@ == "favorites"@ {
        Some(PandaFeedKind::Favorites)
    } else {
        None
    };
    match kind {
        None => r matches Err(Error::UnknownField(m)) && m@ == "panda watch list kind "@ + w.kind@,
        Some(k) => match w.query {
            Some(q) => r matches Ok(p) && p.kind == k && p.query@ == q@,
            None => r matches Err(Error::ObjectNotComplete(m)) && m@ == "panda query cannot be null for "@
                + w.kind@ + " feed"@,
        },
    }
}

/// A gallery feed stored under its kind's name with its query is read back as that
/// kind with that query.
pub proof fn law_stored_panda_feed_reads_back(
    w: PandaWatchList,
    kind: PandaFeedKind,
    r: Result<PandaStoredParams, Error>,
)
    requires
        w.kind@ == match kind {
            PandaFeedKind::Search => "search"@,
            PandaFeedKind::Watched => "watched"@,
            PandaFeedKind::Favorites => "favorites"@,
        },
        w.query is Some,
        panda_params_read(w, r),
    ensures
        r matches Ok(p) && p.kind == kind && p.query@ == w.query->0@,
{
    reveal_strlit("search");
    reveal_strlit("watched");
    reveal_strlit("favorites");
    assert("search"@ != "watched"@ && "search"@ != "favorites"@ && "watched"@ != "favorites"@) by {
        assert("search"@[0] != "watched"@[0]);
        assert("search"@[0] != "favorites"@[0]);
        assert("watched"@[0] != "favorites"@[0]);
    }
}

/// What a stored gallery feed holds (see `panda_params_read`).
pub fn stored_panda_params(w: &PandaWatchList) -> (r: Result<PandaStoredParams, Error>)
    ensures
        panda_params_read(*w, r),
{
    let kind = if text_eq(w.kind.as_str(), "search") {
        PandaFeedKind::Search
    } else if text_eq(w.kind.as_str(), "watched") {
        PandaFeedKind::Watched
    } else if text_eq(w.kind.as_str(), "favorites") {
        PandaFeedKind::Favorites
    } else {
        proof {
            reveal_strlit("");
        }
        return Err(Error::UnknownField(framed("panda watch list kind ", w.kind.as_str(), "")));
    };
    match &w.query {
        Some(q) => Ok(PandaStoredParams { kind, query: q.clone() }),
        None => Err(Error::ObjectNotComplete(framed("panda query cannot be null for ", w.kind.as_str(), " feed"))),
    }
}

/// Where the offset of the next fetch of a gallery feed comes from.
#[derive(Debug, Clone, Copy, PartialEq, Eq, Structural)]
pub enum OffsetSource {
    /// The newest offset recorded: fetch galleries newer than it.
    Previous,
    /// The oldest offset recorded: fetch galleries older than it.
    Next,
    /// No offset: start from the top.
    Start,
}

/// Where the next fetch of a gallery feed starts: a search or watched feed that
/// reached its end looks for newer galleries, one that did not goes on with older
/// ones; a favorites feed always starts from the top, as its offsets cannot be rebuilt.
pub fn panda_offset_source(kind: PandaFeedKind, reached_end: bool) -> (r: OffsetSource)
    ensures
        r == match kind {
            PandaFeedKind::Favorites => OffsetSource::Start,
            _ => if reached_end {
                OffsetSource::Previous
            } else {
                OffsetSource::Next
            },
        },
{
    match kind {
        PandaFeedKind::Favorites => OffsetSource::Start,
        _ => if reached_end {
            OffsetSource::Previous
        } else {
            OffsetSource::Next
        },
    }
}

/// The offset of the next fetch, from the recorded offset its source points to.
pub fn panda_fetch_offset(source: OffsetSource, recorded: Option<String>) -> (r: Option<GalleryListOffset>)
    ensures
        match source {
            OffsetSource::Start => r is None,
            OffsetSource::Previous => match recorded {
                Some(o) => r == Some(GalleryListOffset::NewerThan(o)),
                None => r is None,
            },
            OffsetSource::Next => match recorded {
                Some(o) => r == Some(GalleryListOffset::OlderThan(o)),
                None => r is None,
            },
        },
{
    match source {
        OffsetSource::Start => None,
        OffsetSource::Previous => match recorded {
            Some(o) => Some(GalleryListOffset::NewerThan(o)),
            None => None,
        },
        OffsetSource::Next => match recorded {
            Some(o) => Some(GalleryListOffset::OlderThan(o)),
            None => None,
        },
    }
}

/// The direction of a fetch from its offset: forward only when it asks for newer galleries.
pub fn panda_fetch_direction(offset: &Option<GalleryListOffset>) -> (r: Direction)
    ensures
        r == if offset matches Some(GalleryListOffset::NewerThan(_)) {
            Direction::Forward
        } else {
            Direction::Backward
        },
{
    match offset {
        Some(GalleryListOffset::NewerThan(_)) => Direction::Forward,
        _ => Direction::Backward,
    }
}

fn clone_offset(o: &Option<GalleryListOffset>) -> (r: Option<GalleryListOffset>)
    ensures
        r == *o,
{
    match o {
        Some(GalleryListOffset::NewerThan(s)) => Some(GalleryListOffset::NewerThan(s.clone())),
        Some(GalleryListOffset::OlderThan(s)) => Some(GalleryListOffset::OlderThan(s.clone())),
        None => None,
    }
}

/// The offset to continue from after a fetch: the fetched page's previous offset when
/// going forward, its next offset when going backward.
pub fn panda_continue_offset(
    direction: Direction,
    prev_page_offset: &Option<GalleryListOffset>,
    next_page_offset: &Option<GalleryListOffset>,
) -> (r: Option<GalleryListOffset>)
    ensures
        r == match direction {
            Direction::Forward => *prev_page_offset,
            Direction::Backward => *next_page_offset,
        },
{
    match direction {
        Direction::Forward => clone_offset(prev_page_offset),
        Direction::Backward => clone_offset(next_page_offset),
    }
}

/// A gallery's entry in a gallery feed.
#[derive(Debug, PartialEq, Eq)]
pub struct PandaWatchListGallery {
    pub watch_list_id: i32,
    pub gallery_id: i64,
    pub sort_index: Option<i32>,
    pub stale: bool,
}

/// The entry a newly saved gallery gets in feed `watch_list_id`: not stale, and with
/// no sort index until the update that saved it is done.
pub open spec fn new_gallery_entry(watch_list_id: i32, gallery_id: i64) -> PandaWatchListGallery {
    PandaWatchListGallery { watch_list_id, gallery_id, sort_index: None, stale: false }
}

/// The entries newly saved galleries get in feed `watch_list_id`, in the galleries' order.
pub fn new_gallery_entries(watch_list_id: i32, gids: &Vec<i64>) -> (r: Vec<PandaWatchListGallery>)
    ensures
        r@ == gids@.map_values(|gid: i64| new_gallery_entry(watch_list_id, gid)),
{
    let mut out: Vec<PandaWatchListGallery> = Vec::new();
    let mut j: usize = 0;
    while j < gids.len()
        invariant
            j <= gids@.len(),
            out@ == gids@.take(j as int).map_values(|gid: i64| new_gallery_entry(watch_list_id, gid)),
        decreases gids@.len() - j,
    {
        out.push(PandaWatchListGallery { watch_list_id, gallery_id: gids[j], sort_index: None, stale: false });
        assert(out@ =~= gids@.take(j + 1).map_values(|gid: i64| new_gallery_entry(watch_list_id, gid)));
        j += 1;
    }
    assert(gids@.take(gids@.len() as int) =~= gids@);
    out
}

/// The record of one saved batch in a gallery feed's history.
#[derive(Debug)]
pub struct PandaHistoryEntry {
    pub watch_list_id: i32,
    /// The new gallery IDs, joined with `, `.
    pub ids: String,
    pub count: i32,
    pub prev_offset: Option<String>,
    pub next_offset: Option<String>,
}

/// What saving a fetched page of a gallery feed does.
#[derive(Debug)]
pub struct PandaSavePlan {
    /// Whether the feed is to be marked as having reached its end.
    pub mark_reached_end: bool,
    /// The galleries new to the feed, in fetched order; these are inserted.
    pub new_gids: Vec<i64>,
    /// The feed's entries for the new galleries.
    pub entries: Vec<PandaWatchListGallery>,
    /// The history entry to record, when there are new galleries.
    pub history: Option<PandaHistoryEntry>,
    pub result: SaveResult,
}

/// Whether a fetched page is the last one in the fetch direction: going forward it has
/// no previous page, going backward no next page.
pub open spec fn no_more_pages(
    direction: Direction,
    prev_page_offset: Option<GalleryListOffset>,
    next_page_offset: Option<GalleryListOffset>,
) -> bool {
    match direction {
        Direction::Forward => prev_page_offset is None,
        Direction::Backward => next_page_offset is None,
    }
}

/// A page fetched forward is the last one when it has no previous page; one fetched
/// backward, when it has no next page.
pub proof fn law_last_page_in_fetch_direction(
    prev_page_offset: Option<GalleryListOffset>,
    next_page_offset: Option<GalleryListOffset>,
)
    ensures
        no_more_pages(Direction::Forward, prev_page_offset, next_page_offset) <==> prev_page_offset is None,
        no_more_pages(Direction::Backward, prev_page_offset, next_page_offset) <==> next_page_offset is None,
{
}

/// Decides how a fetched page of a gallery feed is saved.
///
/// A feed fetched backward reaches its end on an empty page or the last page; it is
/// then marked so. An empty page, or one with no gallery new to the feed, saves
/// nothing and stops the update. Otherwise the new galleries are saved, each with an
/// entry in the feed, and with a history entry whose offsets are the page's own offsets where they point the right way, else
/// the first and last new gallery; the update stops when the page held galleries
/// already in the feed or was the last one. The result reports the feed's end
/// whenever the feed is marked so.
///
/// `existing` holds galleries that the feed already has (those among the fetched ones
/// are what counts).
pub fn panda_save_plan(
    watch_list_id: i32,
    fetched: &Vec<i64>,
    existing: &HashSet<i64>,
    direction: Direction,
    prev_page_offset: &Option<GalleryListOffset>,
    next_page_offset: &Option<GalleryListOffset>,
) -> (r: PandaSavePlan)
    ensures
        ({
            let no_more = no_more_pages(direction, *prev_page_offset, *next_page_offset);
            let reached_end = direction == Direction::Backward && (no_more || fetched@.len() == 0);
            let fresh = fresh_posts(fetched@, existing@);
            &&& r.mark_reached_end == reached_end
            &&& forall|k: int|
                0 <= k < fetched@.len() && existing@.contains(#[trigger] fetched@[k]) ==> r.result.should_stop
            &&& fetched@.len() == 0 || fresh.len() == 0 ==> {
                &&& r.new_gids@.len() == 0
                &&& r.entries@.len() == 0
                &&& r.history is None
                &&& r.result.post_ids@.len() == 0
                &&& r.result.should_stop
                &&& r.result.reached_end == reached_end
            }
            &&& fetched@.len() > 0 && fresh.len() > 0 ==> {
                &&& r.new_gids@ == fresh
                &&& r.entries@ == fresh.map_values(|gid: i64| new_gallery_entry(watch_list_id, gid))
                &&& views(r.result.post_ids@) == id_texts(fresh)
                &&& r.result.should_stop == (some_post_known(fetched@, existing@) || no_more)
                &&& r.result.reached_end == reached_end
                &&& r.history matches Some(h) && {
                    &&& h.watch_list_id == watch_list_id
                    &&& h.ids@ == join_comma(id_texts(fresh))
                    &&& fresh.len() <= i32::MAX ==> h.count == fresh.len()
                    &&& h.prev_offset matches Some(p) && p@ == match *prev_page_offset {
                        Some(GalleryListOffset::NewerThan(o)) => o@,
                        _ => int_decimal(fresh[0] as int),
                    }
                    &&& h.next_offset matches Some(n) && n@ == match *next_page_offset {
                        Some(GalleryListOffset::OlderThan(o)) => o@,
                        _ => int_decimal(fresh.last() as int),
                    }
                }
            }
        }),
{
    let empty_result = fetched.len() == 0;
    let no_more_result = match direction {
        Direction::Forward => prev_page_offset.is_none(),
        Direction::Backward => next_page_offset.is_none(),
    };
    let reached_end = matches!(direction, Direction::Backward) && (no_more_result || empty_result);
    if empty_result {
        return PandaSavePlan {
            mark_reached_end: reached_end,
            new_gids: Vec::new(),
            entries: Vec::new(),
            history: None,
            result: SaveResult { post_ids: Vec::new(), should_stop: true, reached_end },
        };
    }
    let fresh = fresh_post_ids(fetched, existing);
    if fresh.len() == 0 {
        return PandaSavePlan {
            mark_reached_end: reached_end,
            new_gids: Vec::new(),
            entries: Vec::new(),
            history: None,
            result: SaveResult { post_ids: Vec::new(), should_stop: true, reached_end },
        };
    }
    let has_existing = any_post_known(fetched, existing);
    let ids = ids_to_strings(&fresh);
    assert(ids@[0]@ == views(ids@)[0]);
    assert(ids@[ids@.len() - 1]@ == views(ids@)[ids@.len() - 1]);
    let prev_offset = match prev_page_offset {
        Some(GalleryListOffset::NewerThan(o)) => o.clone(),
        _ => ids[0].clone(),
    };
    let next_offset = match next_page_offset {
        Some(GalleryListOffset::OlderThan(o)) => o.clone(),
        _ => ids[ids.len() - 1].clone(),
    };
    let entries = new_gallery_entries(watch_list_id, &fresh);
    let history = PandaHistoryEntry {
        watch_list_id,
        ids: join_with_comma(&ids),
        count: #[verifier::truncate] (fresh.len() as i32),
        prev_offset: Some(prev_offset),
        next_offset: Some(next_offset),
    };
    PandaSavePlan {
        mark_reached_end: reached_end,
        new_gids: fresh,
        entries,
        history: Some(history),
        result: SaveResult { post_ids: ids, should_stop: has_existing || no_more_result, reached_end },
    }
}

/// A gallery feed's description: `Search: <keyword>` or `Homepage` for a search,
/// `Watched`, or `Favorites <category or all>[: <keyword>]`.
pub open spec fn panda_feed_description_spec(
    kind: PandaFeedKind,
    keyword: Option<Seq<char>>,
    category_index: Option<i64>,
) -> Seq<char> {
    match kind {
        PandaFeedKind::Search => match keyword {
            Some(k) => seq!['S', 'e', 'a', 'r', 'c', 'h', ':', ' '] + k,
            None => seq!['H', 'o', 'm', 'e', 'p', 'a', 'g', 'e'],
        },
        PandaFeedKind::Watched => seq!['W', 'a', 't', 'c', 'h', 'e', 'd'],
        PandaFeedKind::Favorites => seq!['F', 'a', 'v', 'o', 'r', 'i', 't', 'e', 's', ' '] + match category_index {
            Some(c) => int_decimal(c as int),
            None => seq!['a', 'l', 'l'],
        } + match keyword {
            Some(k) => seq![':', ' '] + k,
            None => Seq::empty(),
        },
    }
}

/// A gallery feed's description, from its kind and search option.
pub fn panda_feed_description(kind: PandaFeedKind, keyword: &Option<String>, category_index: Option<i64>) -> (r:
    String)
    ensures
        r@ == panda_feed_description_spec(
            kind,
            match keyword {
                Some(k) => Some(k@),
                None => None,
            },
            category_index,
        ),
{
    proof {
        reveal_strlit("Search: ");
        reveal_strlit("Homepage");
        reveal_strlit("Watched");
        reveal_strlit("Favorites ");
        reveal_strlit("all");
        reveal_strlit(": ");
    }
    assert("Search: "@ =~= seq!['S', 'e', 'a', 'r', 'c', 'h', ':', ' ']);
    assert("Homepage"@ =~= seq!['H', 'o', 'm', 'e', 'p', 'a', 'g', 'e']);
    assert("Watched"@ =~= seq!['W', 'a', 't', 'c', 'h', 'e', 'd']);
    assert("Favorites "@ =~= seq!['F', 'a', 'v', 'o', 'r', 'i', 't', 'e', 's', ' ']);
    assert("all"@ =~= seq!['a', 'l', 'l']);
    assert(": "@ =~= seq![':', ' ']);
    match kind {
        PandaFeedKind::Search => match keyword {
            Some(k) => {
                let mut s = text_of("Search: ");
                s.append(k.as_str());
                s
            },
            None => text_of("Homepage"),
        },
        PandaFeedKind::Watched => text_of("Watched"),
        PandaFeedKind::Favorites => {
            let mut s = text_of("Favorites ");
            match category_index {
                Some(c) => {
                    let d = i64_to_decimal(c);
                    s.append(d.as_str());
                },
                None => s.append("all"),
            }
            match keyword {
                Some(k) => {
                    s.append(": ");
                    s.append(k.as_str());
                },
                None => {},
            }
            assert(s@ =~= panda_feed_description_spec(
                kind,
                match keyword {
                    Some(k) => Some(k@),
                    None => None,
                },
                category_index,
            ));
            s
        },
    }
}

// MARK: Metadata

/// The options of a gallery search, by name and kind.
pub open spec fn search_option_fields() -> Seq<(Seq<char>, FieldKind)> {
    seq![
        ("keyword"@, FieldKind::OptionalString),
        ("categories"@, FieldKind::StringArray),
        ("search_name"@, FieldKind::Bool),
        ("search_tags"@, FieldKind::Bool),
        ("search_description"@, FieldKind::Bool),
        ("search_torrent"@, FieldKind::Bool),
        ("search_low_power_tags"@, FieldKind::Bool),
        ("search_downvoted_tags"@, FieldKind::Bool),
        ("search_expunged"@, FieldKind::Bool),
        ("require_torrent"@, FieldKind::Bool),
        ("disable_language_filter"@, FieldKind::Bool),
        ("disable_uploader_filter"@, FieldKind::Bool),
        ("disable_tags_filter"@, FieldKind::Bool),
        ("min_rating"@, FieldKind::OptionalInt),
        ("min_pages"@, FieldKind::OptionalInt),
        ("max_pages"@, FieldKind::OptionalInt),
    ]
}

/// The options of a search among favorites, by name and kind.
pub open spec fn favorite_search_option_fields() -> Seq<(Seq<char>, FieldKind)> {
    seq![
        ("keyword"@, FieldKind::OptionalString),
        ("category_index"@, FieldKind::OptionalInt),
        ("search_name"@, FieldKind::Bool),
        ("search_tags"@, FieldKind::Bool),
        ("search_note"@, FieldKind::Bool),
    ]
}

/// The scheme of the options of a gallery search (see `search_option_fields`).
pub fn search_option_scheme() -> (r: Scheme)
    ensures
        object_fields_are(r, search_option_fields()),
{
    let names = vec![
        "keyword",
        "categories",
        "search_name",
        "search_tags",
        "search_description",
        "search_torrent",
        "search_low_power_tags",
        "search_downvoted_tags",
        "search_expunged",
        "require_torrent",
        "disable_language_filter",
        "disable_uploader_filter",
        "disable_tags_filter",
        "min_rating",
        "min_pages",
        "max_pages",
    ];
    let kinds = vec![
        FieldKind::OptionalString,
        FieldKind::StringArray,
        FieldKind::Bool,
        FieldKind::Bool,
        FieldKind::Bool,
        FieldKind::Bool,
        FieldKind::Bool,
        FieldKind::Bool,
        FieldKind::Bool,
        FieldKind::Bool,
        FieldKind::Bool,
        FieldKind::Bool,
        FieldKind::Bool,
        FieldKind::OptionalInt,
        FieldKind::OptionalInt,
        FieldKind::OptionalInt,
    ];
    assert(Seq::new(16, |k: int| (names@[k]@, kinds@[k])) =~= search_option_fields());
    object_scheme(&names, &kinds)
}

/// The scheme of the options of a search among favorites (see
/// `favorite_search_option_fields`).
pub fn favorite_search_option_scheme() -> (r: Scheme)
    ensures
        object_fields_are(r, favorite_search_option_fields()),
{
    let names = vec!["keyword", "category_index", "search_name", "search_tags", "search_note"];
    let kinds = vec![
        FieldKind::OptionalString,
        FieldKind::OptionalInt,
        FieldKind::Bool,
        FieldKind::Bool,
        FieldKind::Bool,
    ];
    assert(Seq::new(5, |k: int| (names@[k]@, kinds@[k])) =~= favorite_search_option_fields());
    object_scheme(&names, &kinds)
}

/// Whether a scheme is an object whose only field is `option`, with the given fields.
pub open spec fn option_object(s: Scheme, option_fields: Seq<(Seq<char>, FieldKind)>) -> bool {
    s matches Scheme::Object(fields) && fields@.len() == 1 && fields@[0].0@ == "option"@ && object_fields_are(
        fields@[0].1,
        option_fields,
    )
}

fn option_scheme(option: Scheme) -> (r: Scheme)
    ensures
        r matches Scheme::Object(fields) && fields@.len() == 1 && fields@[0].0@ == "option"@ && fields@[0].1
            == option,
{
    let mut fields: Vec<(String, Scheme)> = Vec::new();
    fields.push((text_of("option"), option));
    Scheme::Object(fields)
}

/// Whether `r` describes the kinds of gallery feeds: a search and the watched tags take
/// search options, favorites take favorite search options; all need an account.
pub open spec fn panda_feed_kinds(r: Seq<FeedMetadata>) -> bool {
    &&& r.len() == 3
    &&& forall|k: int| 0 <= k < 3 ==> (#[trigger] r[k]).need_auth
    &&& r[0].name@ == "search"@ && option_object(r[0].scheme, search_option_fields())
    &&& r[1].name@ == "watched"@ && option_object(r[1].scheme, search_option_fields())
    &&& r[2].name@ == "favorites"@ && option_object(r[2].scheme, favorite_search_option_fields())
}

/// Whether `a` describes gallery accounts: their credential is the `ipb_member_id`,
/// `ipb_pass_hash` and `igneous` cookies; their details cannot be fetched, and they
/// need no refreshing.
pub open spec fn panda_account_kind(a: AccountMetadata) -> bool {
    &&& object_fields_are(
        a.credential_scheme,
        seq![
            ("ipb_member_id"@, FieldKind::String),
            ("ipb_pass_hash"@, FieldKind::String),
            ("igneous"@, FieldKind::String),
        ],
    )
    &&& !a.can_fetch_info
    &&& !a.need_refresh
}

/// The kinds of gallery feeds (see `panda_feed_kinds`).
pub fn panda_feed_metadata() -> (r: Vec<FeedMetadata>)
    ensures
        panda_feed_kinds(r@),
{
    let mut r: Vec<FeedMetadata> = Vec::new();
    r.push(feed_metadata("search", option_scheme(search_option_scheme()), true));
    r.push(feed_metadata("watched", option_scheme(search_option_scheme()), true));
    r.push(feed_metadata("favorites", option_scheme(favorite_search_option_scheme()), true));
    r
}

/// Gallery accounts (see `panda_account_kind`).
pub fn panda_account_metadata() -> (r: AccountMetadata)
    ensures
        panda_account_kind(r),
{
    let names = vec!["ipb_member_id", "ipb_pass_hash", "igneous"];
    let kinds = vec![FieldKind::String, FieldKind::String, FieldKind::String];
    assert(Seq::new(3, |k: int| (names@[k]@, kinds@[k])) =~= seq![
        ("ipb_member_id"@, FieldKind::String),
        ("ipb_pass_hash"@, FieldKind::String),
        ("igneous"@, FieldKind::String),
    ]);
    AccountMetadata { credential_scheme: object_scheme(&names, &kinds), can_fetch_info: false, need_refresh: false }
}

/// The gallery community: its name, feed kinds and accounts.
pub fn panda_community_metadata() -> (r: CommunityMetadata)
    ensures
        r.name@ == "panda"@,
        panda_feed_kinds(r.feeds@),
        r.account matches Some(a) && panda_account_kind(a),
{
    CommunityMetadata { name: text_of("panda"), feeds: panda_feed_metadata(), account: Some(panda_account_metadata()) }
}

} // verus!
