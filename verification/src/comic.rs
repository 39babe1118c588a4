//! The owning item of download work — a comic and its chapters — together
//! with the pure selection logic that decides which chapters still need
//! downloading.

use vstd::prelude::*;

use crate::error::DownloadError;

verus! {

/// One chapter of a comic. `is_downloaded` is `Some(true)` when every page of
/// the chapter already lies in the download directory, `Some(false)` when it
/// does not, and `None` when the flag is stripped for serialization.
#[derive(Clone, Copy, PartialEq, Eq, Structural, Debug)]
pub struct ChapterInfo {
    pub chapter_id: i64,
    pub is_downloaded: Option<bool>,
}

/// A comic: the payload of download work. Immutable after creation from the
/// orchestrator's point of view.
#[derive(Debug)]
pub struct Comic {
    pub id: i64,
    pub name: String,
    pub is_downloaded: Option<bool>,
    pub chapter_infos: Vec<ChapterInfo>,
}

/// A chapter counts as downloaded only when the flag says so explicitly.
pub open spec fn chapter_downloaded(c: ChapterInfo) -> bool {
    c.is_downloaded == Some(true)
}

/// The ids of the chapters of `s` that are not yet downloaded, in order.
pub open spec fn undownloaded_ids(s: Seq<ChapterInfo>) -> Seq<i64>
    decreases s.len(),
{
    if s.len() == 0 {
        Seq::empty()
    } else {
        let rest = undownloaded_ids(s.drop_last());
        if chapter_downloaded(s.last()) {
            rest
        } else {
            rest.push(s.last().chapter_id)
        }
    }
}

/// Every id the download plan names is the id of a chapter of `s`.
pub proof fn lemma_undownloaded_are_chapters(s: Seq<ChapterInfo>)
    ensures
        forall|j: int| 0 <= j < undownloaded_ids(s).len()
            ==> has_chapter(s, #[trigger] undownloaded_ids(s)[j]),
    decreases s.len(),
{
    if s.len() > 0 {
        lemma_undownloaded_are_chapters(s.drop_last());
        assert forall|j: int| 0 <= j < undownloaded_ids(s).len()
            implies has_chapter(s, #[trigger] undownloaded_ids(s)[j]) by {
            let prefix = undownloaded_ids(s.drop_last());
            if j < prefix.len() {
                let i = choose|i: int|
                    0 <= i < s.drop_last().len() && s.drop_last()[i].chapter_id == prefix[j];
                assert(s[i].chapter_id == prefix[j]);
            } else {
                assert(undownloaded_ids(s)[j] == s.last().chapter_id);
                assert(s[s.len() - 1].chapter_id == s.last().chapter_id);
            }
        }
    }
}

/// Whether some chapter of `s` carries the id `id`.
pub open spec fn has_chapter(s: Seq<ChapterInfo>, id: i64) -> bool {
    exists|i: int| 0 <= i < s.len() && s[i].chapter_id == id
}

/// A comic this system tracks locally: at least one chapter downloaded.
pub open spec fn comic_tracked(c: Comic) -> bool {
    exists|i: int| 0 <= i < c.chapter_infos@.len() && chapter_downloaded(#[trigger] c.chapter_infos@[i])
}

/// A payload is valid for task creation when its name is present and the
/// requested chapter belongs to it.
pub open spec fn payload_valid(c: Comic, chapter_id: i64) -> bool {
    c.name@.len() > 0 && has_chapter(c.chapter_infos@, chapter_id)
}

impl Comic {
    /// Whether at least one chapter is already downloaded — the mark of a
    /// comic that this system tracks locally.
    pub fn has_downloaded_chapter(&self) -> (r: bool)
        ensures
            r == comic_tracked(*self),
    {
        let n = self.chapter_infos.len();
        let mut i: usize = 0;
        while i < n
            invariant
                i <= n,
                n == self.chapter_infos@.len(),
                forall|j: int| 0 <= j < i ==> !chapter_downloaded(self.chapter_infos@[j]),
            decreases n - i,
        {
            if matches!(self.chapter_infos[i].is_downloaded, Some(true)) {
                return true;
            }
            i = i + 1;
        }
        false
    }

    /// Whether `chapter_id` names a chapter of this comic.
    pub fn contains_chapter(&self, chapter_id: i64) -> (r: bool)
        ensures
            r == has_chapter(self.chapter_infos@, chapter_id),
    {
        let n = self.chapter_infos.len();
        let mut i: usize = 0;
        while i < n
            invariant
                i <= n,
                n == self.chapter_infos@.len(),
                forall|j: int| 0 <= j < i ==> self.chapter_infos@[j].chapter_id != chapter_id,
            decreases n - i,
        {
            if self.chapter_infos[i].chapter_id == chapter_id {
                return true;
            }
            i = i + 1;
        }
        false
    }

    /// The ids of every chapter not yet downloaded, in chapter order.
    pub fn chapters_to_download(&self) -> (r: Vec<i64>)
        ensures
            r@ == undownloaded_ids(self.chapter_infos@),
    {
        let n = self.chapter_infos.len();
        let mut out: Vec<i64> = Vec::new();
        let mut i: usize = 0;
        while i < n
            invariant
                i <= n,
                n == self.chapter_infos@.len(),
                out@ == undownloaded_ids(self.chapter_infos@.subrange(0, i as int)),
            decreases n - i,
        {
            let ch = self.chapter_infos[i];
            proof {
                assert(self.chapter_infos@.subrange(0, i + 1 as int).drop_last()
                    =~= self.chapter_infos@.subrange(0, i as int));
                assert(self.chapter_infos@.subrange(0, i + 1 as int).last() == ch);
            }
            if !matches!(ch.is_downloaded, Some(true)) {
                out.push(ch.chapter_id);
            }
            i = i + 1;
        }
        proof {
            assert(self.chapter_infos@.subrange(0, n as int) =~= self.chapter_infos@);
        }
        out
    }

    /// The download plan for a whole comic: every chapter that still needs
    /// fetching. Fails when nothing is left to download — the comic already
    /// lies complete in the download directory.
    pub fn plan_download(&self) -> (r: Result<Vec<i64>, DownloadError>)
        ensures
            match r {
                Ok(ids) => ids@ == undownloaded_ids(self.chapter_infos@) && ids@.len() > 0,
                Err(e) => e is InvalidPayload && undownloaded_ids(self.chapter_infos@).len() == 0,
            },
    {
        let ids = self.chapters_to_download();
        if ids.len() == 0 {
            Err(DownloadError::InvalidPayload)
        } else {
            Ok(ids)
        }
    }

    /// The comic as it is written into a metadata file: every download flag
    /// cleared, so that serialization omits it; all else unchanged.
    pub fn stripped_for_metadata(self) -> (r: Comic)
        ensures
            r.id == self.id,
            r.name@ == self.name@,
            r.is_downloaded is None,
            r.chapter_infos@.len() == self.chapter_infos@.len(),
            forall|i: int| 0 <= i < self.chapter_infos@.len()
                ==> #[trigger] r.chapter_infos@[i].chapter_id == self.chapter_infos@[i].chapter_id
                    && r.chapter_infos@[i].is_downloaded is None,
    {
        let n = self.chapter_infos.len();
        let mut chapters: Vec<ChapterInfo> = Vec::new();
        let mut i: usize = 0;
        while i < n
            invariant
                i <= n,
                n == self.chapter_infos@.len(),
                chapters@.len() == i,
                forall|j: int| 0 <= j < i
                    ==> #[trigger] chapters@[j].chapter_id == self.chapter_infos@[j].chapter_id
                        && chapters@[j].is_downloaded is None,
            decreases n - i,
        {
            chapters.push(ChapterInfo { chapter_id: self.chapter_infos[i].chapter_id, is_downloaded: None });
            i = i + 1;
        }
        Comic { id: self.id, name: self.name, is_downloaded: None, chapter_infos: chapters }
    }
}

} // verus!
