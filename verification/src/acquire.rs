//! Bookkeeping of one streamed artifact download.
//!
//! The caller performs the network and disk I/O; a [`DownloadTransfer`]
//! makes the decisions and keeps the accounting: whether the response status
//! permits the transfer, where the bytes go while in flight, where they are
//! committed to, and what each progress report must say.

use vstd::prelude::*;

use crate::models::spec_filename;
use crate::models::spec_join;
use crate::models::spec_url;
use crate::models::ModelError;
use crate::models::ModelPreset;

verus! {

/// Transient in-flight state of one download: where the bytes come from,
/// where they accumulate, where they are committed to, and how many arrived.
///
/// Content is streamed into `temp_path` only, never into `final_path`; the
/// caller commits a finished transfer by renaming `temp_path` to
/// `final_path` in one step, so a reader of the canonical path never
/// observes a partial artifact.
pub struct DownloadTransfer {
    /// The fixed remote source of the artifact.
    pub url: String,
    /// Where the bytes accumulate while the transfer is in flight.
    pub temp_path: String,
    /// The canonical path the finished artifact is committed to.
    pub final_path: String,
    /// Bytes transferred so far.
    pub transferred: u64,
    /// Declared total size; 0 when the server did not provide one.
    pub total: u64,
}

/// The decimal digit character for `d`.
pub open spec fn digit_char(d: int) -> char {
    ((48 + d) as u8) as char
}

/// The decimal rendering of `n`, most significant digit first.
pub open spec fn dec_digits(n: nat) -> Seq<char>
    decreases n,
{
    if n < 10 {
        seq![digit_char(n as int)]
    } else {
        dec_digits(n / 10) + seq![digit_char((n % 10) as int)]
    }
}

/// The message a refused response carries: the status code, rendered.
pub open spec fn spec_status_message(status: u16) -> Seq<char> {
    "HTTP "@ + dec_digits(status as nat)
}

fn push_digit(out: &mut String, d: u16)
    requires
        d < 10,
    ensures
        final(out)@ == old(out)@ + seq![digit_char(d as int)],
{
    match d {
        0 => out.append("0"),
        1 => out.append("1"),
        2 => out.append("2"),
        3 => out.append("3"),
        4 => out.append("4"),
        5 => out.append("5"),
        6 => out.append("6"),
        7 => out.append("7"),
        8 => out.append("8"),
        _ => out.append("9"),
    }
    proof {
        reveal_strlit("0");
        reveal_strlit("1");
        reveal_strlit("2");
        reveal_strlit("3");
        reveal_strlit("4");
        reveal_strlit("5");
        reveal_strlit("6");
        reveal_strlit("7");
        reveal_strlit("8");
        reveal_strlit("9");
        assert(final(out)@ =~= old(out)@ + seq![digit_char(d as int)]);
    }
}

fn push_dec(out: &mut String, n: u16)
    ensures
        final(out)@ == old(out)@ + dec_digits(n as nat),
    decreases n,
{
    if n < 10 {
        push_digit(out, n);
    } else {
        push_dec(out, n / 10);
        push_digit(out, n % 10);
    }
}

/// The sum of a sequence of chunk sizes.
pub open spec fn sum_of(chunks: Seq<u64>) -> int
    decreases chunks.len(),
{
    if chunks.len() == 0 {
        0
    } else {
        sum_of(chunks.drop_last()) + chunks.last()
    }
}

impl DownloadTransfer {
    /// Start the bookkeeping of a download of `preset`'s artifact into
    /// `models_dir`: nothing transferred yet, the total still unknown, and
    /// the in-flight bytes destined for the canonical path plus a reserved
    /// suffix.
    pub fn begin(preset: ModelPreset, models_dir: &str) -> (t: DownloadTransfer)
        ensures
            t.url@ == spec_url(preset),
            t.final_path@ == spec_join(models_dir@, spec_filename(preset)),
            t.temp_path@ == t.final_path@ + ".tmp"@,
            t.transferred == 0,
            t.total == 0,
    {
        let final_path = preset.local_path(models_dir);
        let mut temp_path = final_path.clone();
        temp_path.append(".tmp");
        DownloadTransfer {
            url: preset.download_url().to_owned(),
            temp_path,
            final_path,
            transferred: 0,
            total: 0,
        }
    }

    /// Accept or reject the response to the GET request: any 2xx status
    /// permits the transfer and fixes the declared total (0 when the server
    /// gave no content length); anything else fails with `Download` carrying
    /// the source URL and the rendered status, and leaves the transfer
    /// untouched.
    pub fn on_response(&mut self, status: u16, content_length: Option<u64>) -> (r: Result<
        (),
        ModelError,
    >)
        requires
            old(self).transferred == 0,
        ensures
            r is Ok <==> 200 <= status < 300,
            r is Ok ==> *final(self) == (DownloadTransfer {
                total: match content_length {
                    Some(n) => n,
                    None => 0,
                },
                ..*old(self)
            }),
            r matches Err(e) ==> *final(self) == *old(self) && (e matches ModelError::Download {
                url,
                message,
            } && url@ == old(self).url@ && message@ == spec_status_message(status)),
    {
        if 200 <= status && status < 300 {
            self.total = match content_length {
                Some(n) => n,
                None => 0,
            };
            Ok(())
        } else {
            let mut message = "HTTP ".to_owned();
            push_dec(&mut message, status);
            Err(ModelError::Download { url: self.url.clone(), message })
        }
    }

    /// Account for one received chunk of `len` bytes and say what the
    /// progress observer must be told: the new running count, and the
    /// declared total. Reported counts never decrease.
    pub fn on_chunk(&mut self, len: u64) -> (progress: (u64, u64))
        requires
            old(self).transferred + len <= u64::MAX,
        ensures
            *final(self) == (DownloadTransfer {
                transferred: (old(self).transferred + len) as u64,
                ..*old(self)
            }),
            progress.0 == final(self).transferred,
            progress.1 == final(self).total,
            old(self).transferred <= final(self).transferred,
    {
        self.transferred = self.transferred + len;
        (self.transferred, self.total)
    }

    /// Whether the transfer delivered exactly the declared total; vacuous
    /// when the server did not declare one.
    pub fn matches_declared_total(&self) -> (r: bool)
        ensures
            r == (self.total == 0 || self.transferred == self.total),
    {
        self.total == 0 || self.transferred == self.total
    }
}

/// The in-flight path and the canonical path of a transfer never coincide,
/// so streaming into the one can never corrupt the other.
pub proof fn lemma_temp_path_distinct(t: DownloadTransfer)
    requires
        t.temp_path@ == t.final_path@ + ".tmp"@,
    ensures
        t.temp_path@ != t.final_path@,
{
    reveal_strlit(".tmp");
    assert(t.temp_path@.len() == t.final_path@.len() + 4);
}

/// Progress reports are non-decreasing: after more chunks, the running
/// count a transfer reports is at least what it reported before. The count
/// after `i` chunks of `chunks` is `sum_of(chunks.take(i))`, by the
/// contract of [`DownloadTransfer::on_chunk`].
pub proof fn lemma_progress_monotone(chunks: Seq<u64>, i: int, j: int)
    requires
        0 <= i <= j <= chunks.len(),
    ensures
        sum_of(chunks.take(i)) <= sum_of(chunks.take(j)),
    decreases j - i,
{
    if i < j {
        lemma_progress_monotone(chunks, i, j - 1);
        assert(chunks.take(j).drop_last() =~= chunks.take(j - 1));
        assert(sum_of(chunks.take(j)) == sum_of(chunks.take(j - 1)) + chunks[j - 1]);
    } else {
        assert(chunks.take(i) =~= chunks.take(j));
    }
}

/// When the chunks of a completed transfer sum to the declared total, no
/// intermediate report exceeds `total`, and the report after the last chunk
/// says exactly `total`.
pub proof fn lemma_final_report_is_total(chunks: Seq<u64>, total: u64, i: int)
    requires
        sum_of(chunks) == total,
        0 <= i <= chunks.len(),
    ensures
        sum_of(chunks.take(i)) <= total,
        sum_of(chunks.take(chunks.len() as int)) == total,
{
    lemma_progress_monotone(chunks, i, chunks.len() as int);
    assert(chunks.take(chunks.len() as int) =~= chunks);
}

} // verus!
