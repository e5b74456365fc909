//! What a collection copies, names, reports and uploads, over its steps.

use vstd::prelude::*;

use crate::domain::drop_copy::{lemma_decimal_injective, sanitized};
use crate::domain::drop_laws::law_a_copy_name_reads_back;
use crate::domain::image_name::{divides, is_verbatim, prefix_len};
use crate::domain::path_laws::law_extension_follows_the_dot;
use crate::domain::scope::ScopeModel;
use crate::plugins::drops_collector::{
    collects, part_name, takes_in_chunk, takes_on, CollectAction, CollectEvent, DropJob, DropsCollectorPlugin, Phase,
};
use crate::plugins::wire::following;
use crate::protocol::payload::Payload;
use crate::text::{decimal_digits, hex_digits, split_on};
use crate::text_laws::law_hex_tells_bytes_apart;

verus! {

/// The steps of a collection that goes well, from the size of the file to the
/// upload of its copy: what the host reports, in order.
pub open spec fn goes_well(
    size: u64,
    digest: [u8; 32],
    copied_bytes: u64,
) -> Seq<CollectEvent> {
    seq![
        CollectEvent::Size(Some(size)),
        CollectEvent::Directory(true),
        CollectEvent::Copied(Some(digest)),
        CollectEvent::Renamed(true),
        CollectEvent::Measured(copied_bytes),
        CollectEvent::Published,
        CollectEvent::Uploaded(true),
    ]
}

/// One collection speaks of one file and one copy: the file that was handed in
/// is the one looked at, copied and named as the source; the part file that is
/// written is the one that gets renamed; the name that it gets is the one that
/// is measured, reported as copied, uploaded and reported as uploaded; the size
/// reported is the measured one, both times; and the study, the session, the cap
/// and the endpoint are those at hand when the collection began.
pub proof fn law_one_collection_one_copy(
    idle: DropsCollectorPlugin,
    state: ScopeModel,
    source: String,
    begun: CollectAction,
    size: u64,
    digest: [u8; 32],
    copied_bytes: u64,
    plugins: Seq<DropsCollectorPlugin>,
    seqs: Seq<u64>,
    now_ms: Seq<i64>,
    actions: Seq<CollectAction>,
)
    requires
        takes_on(idle, state, source, plugins[0], Some(begun)),
        plugins.len() == 8,
        seqs.len() == 8,
        now_ms.len() == 7,
        actions.len() == 7,
        forall|k: int|
            0 <= k < 7 ==> collects(
                plugins[k],
                goes_well(size, digest, copied_bytes)[k],
                seqs[k],
                now_ms[k],
                plugins[k + 1],
                #[trigger] actions[k],
                seqs[k + 1],
            ),
        size <= idle.config.max_size,
        !idle.seen_hashes@.contains(hex_digits(digest@.take(4))),
        idle.config.upload_uri is Some,
    ensures
        begun matches CollectAction::Stat(path) && path@ == source@,
        actions[1] matches CollectAction::Copy { source: copied, part, max_bytes } && {
            &&& copied@ == source@
            &&& max_bytes == idle.config.max_size
            &&& actions[2] matches CollectAction::Rename { part: renamed, name } && {
                &&& renamed@ == part@
                &&& (actions[3] matches CollectAction::Measure(measured) && measured@ == name@)
                &&& (actions[4] matches CollectAction::Publish(report) && {
                    &&& report.study == state.study_id
                    &&& report.session == state.session_id()
                    &&& report.seq == seqs[0]
                    &&& report.ts == now_ms[4]
                    &&& (report.data matches Payload::DropCopied(data) && data.source@ == source@
                        && data.copy@ == name@ && data.size_bytes == copied_bytes)
                })
                &&& (actions[5] matches CollectAction::Upload(request) && {
                    &&& request.meta.path@ == name@
                    &&& request.meta.study == state.study_id
                    &&& request.meta.session == state.session_id()
                    &&& request.endpoint@ == idle.config.upload_uri->0@
                    &&& request.max_blob_bytes == idle.config.max_size
                    &&& (request.directory matches crate::ports::Directory::Configured(path) && path
                        == idle.config.path)
                })
                &&& (actions[6] matches CollectAction::Publish(report) && {
                    &&& report.study == state.study_id
                    &&& report.session == state.session_id()
                    &&& report.seq == following(seqs[0])
                    &&& report.ts == now_ms[6]
                    &&& (report.data matches Payload::DropUploaded(data) && data.copy@ == name@
                        && data.size_bytes == copied_bytes)
                })
            }
        },
        plugins[7].collected == idle.collected + 1,
        plugins[7].seen_hashes@ == idle.seen_hashes@.insert(hex_digits(digest@.take(4))),
{
    let reports = goes_well(size, digest, copied_bytes);
    assert(collects(plugins[0], reports[0], seqs[0], now_ms[0], plugins[1], actions[0], seqs[1]));
    assert(collects(plugins[1], reports[1], seqs[1], now_ms[1], plugins[2], actions[1], seqs[2]));
    assert(collects(plugins[2], reports[2], seqs[2], now_ms[2], plugins[3], actions[2], seqs[3]));
    assert(collects(plugins[3], reports[3], seqs[3], now_ms[3], plugins[4], actions[3], seqs[4]));
    assert(collects(plugins[4], reports[4], seqs[4], now_ms[4], plugins[5], actions[4], seqs[5]));
    assert(collects(plugins[5], reports[5], seqs[5], now_ms[5], plugins[6], actions[5], seqs[6]));
    assert(collects(plugins[6], reports[6], seqs[6], now_ms[6], plugins[7], actions[6], seqs[7]));
}

/// Content is kept once: after a copy of some content was kept, a later copy
/// whose digest starts with the same four bytes is discarded, while one whose
/// digest starts otherwise is kept unless it was known before.
pub proof fn law_content_is_kept_once(
    plugins: Seq<DropsCollectorPlugin>,
    later: DropsCollectorPlugin,
    digest: [u8; 32],
    other: [u8; 32],
    seqs: Seq<u64>,
    now_ms: Seq<i64>,
    actions: Seq<CollectAction>,
    after: DropsCollectorPlugin,
    action: CollectAction,
)
    requires
        plugins[0].phase is Copying,
        collects(
            plugins[0],
            CollectEvent::Copied(Some(digest)),
            seqs[0],
            now_ms[0],
            plugins[1],
            actions[0],
            seqs[1],
        ),
        actions[0] is Rename,
        collects(
            plugins[1],
            CollectEvent::Renamed(true),
            seqs[1],
            now_ms[1],
            plugins[2],
            actions[1],
            seqs[2],
        ),
        later.phase is Copying,
        later.seen_hashes@ == plugins[2].seen_hashes@,
        collects(later, CollectEvent::Copied(Some(other)), seqs[2], now_ms[2], after, action, seqs[3]),
    ensures
        other@.take(4) == digest@.take(4) ==> action is RemovePart,
        other@.take(4) != digest@.take(4) && !plugins[0].seen_hashes@.contains(
            hex_digits(other@.take(4)),
        ) ==> action is Rename,
        forall|hash: Seq<char>|
            plugins[0].seen_hashes@.contains(hash) ==> #[trigger] plugins[2].seen_hashes@.contains(hash),
{
    law_hex_tells_bytes_apart(digest@.take(4), other@.take(4));
}

/// What is too large or gone is not copied, what cannot be renamed is removed,
/// and an upload is reported only after it succeeded.
pub proof fn law_only_what_succeeded_goes_on(
    before: DropsCollectorPlugin,
    event: CollectEvent,
    seq: u64,
    now_ms: i64,
    after: DropsCollectorPlugin,
    action: CollectAction,
    seq_after: u64,
)
    requires
        collects(before, event, seq, now_ms, after, action, seq_after),
    ensures
        action is MakeDirectory ==> (event matches CollectEvent::Size(Some(size)) && size
            <= before.config.max_size),
        (before.phase is Sizing && (event matches CollectEvent::Size(Some(size)) && size
            <= before.config.max_size)) ==> action is MakeDirectory,
        action is Copy ==> event == CollectEvent::Directory(true),
        action is Rename ==> (event matches CollectEvent::Copied(copied) && copied is Some),
        action is Measure ==> event == CollectEvent::Renamed(true),
        action is Upload ==> event is Published && before.config.upload_uri is Some,
        action matches CollectAction::Publish(report) ==> {
            ||| report.data is DropCopied && event is Measured
            ||| report.data is DropUploaded && event == CollectEvent::Uploaded(true)
        },
        !(action is Publish) ==> seq_after == seq,
        action is Publish ==> seq_after == following(seq),
        action is Done ==> after.phase is Idle,
{
}

/// The part file that is removed is the one that was written.
pub proof fn law_the_written_part_is_removed(
    plugins: Seq<DropsCollectorPlugin>,
    reported: Option<[u8; 32]>,
    seqs: Seq<u64>,
    now_ms: Seq<i64>,
    actions: Seq<CollectAction>,
)
    requires
        plugins[0].phase is Preparing,
        collects(
            plugins[0],
            CollectEvent::Directory(true),
            seqs[0],
            now_ms[0],
            plugins[1],
            actions[0],
            seqs[1],
        ),
        collects(
            plugins[1],
            CollectEvent::Copied(reported),
            seqs[1],
            now_ms[1],
            plugins[2],
            actions[1],
            seqs[2],
        ),
        collects(
            plugins[2],
            CollectEvent::Renamed(false),
            seqs[2],
            now_ms[2],
            plugins[3],
            actions[2],
            seqs[3],
        ),
    ensures
        actions[0] matches CollectAction::Copy { source, part, max_bytes } && {
            &&& actions[1] matches CollectAction::RemovePart(removed) ==> removed@ == part@
            &&& actions[1] is Rename ==> (actions[2] matches CollectAction::RemovePart(removed) && removed@
                == part@)
            &&& actions[1] is RemovePart || actions[1] is Rename
        },
{
}

/// A copy is named after its session, its number, its content and its source: cut
/// at the dashes the name gives the session, the number, and eight hex digits of
/// the digest with the source's extension, tamed, behind the dot.
pub proof fn law_a_copy_is_named_after_its_source(
    before: DropsCollectorPlugin,
    job: DropJob,
    number: u64,
    head: Seq<char>,
    extension: Seq<char>,
    digest: [u8; 32],
    seq: u64,
    now_ms: i64,
    after: DropsCollectorPlugin,
    action: CollectAction,
    seq_after: u64,
)
    requires
        before.phase == Phase::Copying(job, number),
        job.source@ == head.push('.') + extension,
        extension.len() > 0,
        forall|i: int|
            0 <= i < extension.len() ==> #[trigger] extension[i] != '.' && extension[i] != '/'
                && extension[i] != '\\',
        prefix_len(job.source@) < head.len(),
        !divides(is_verbatim(job.source@), head.last()),
        !sanitized(extension).contains('-'),
        !before.seen_hashes@.contains(hex_digits(digest@.take(4))),
        collects(before, CollectEvent::Copied(Some(digest)), seq, now_ms, after, action, seq_after),
    ensures
        action matches CollectAction::Rename { part, name } && split_on(name@, '-') == seq![
            decimal_digits(job.session_id as nat),
            decimal_digits(number as nat),
            hex_digits(digest@.take(4)) + seq!['.'] + sanitized(extension),
        ],
        hex_digits(digest@.take(4)).len() == 8,
{
    law_extension_follows_the_dot(head, extension);
    law_hex_tells_bytes_apart(digest@.take(4), digest@.take(4));
    let hash = hex_digits(digest@.take(4));
    assert(!hash.contains('-')) by {
        if hash.contains('-') {
            let i = choose|i: int| 0 <= i < hash.len() && hash[i] == '-';
            assert('0' <= hash[i] <= '9' || 'a' <= hash[i] <= 'f');
        }
    }
    law_a_copy_name_reads_back(job.session_id as nat, number as nat, hash, sanitized(extension));
}

/// No two collections write to the same part file: the number in its name moves
/// on with every collection that comes to copying.
pub proof fn law_part_files_differ(session: u32, number: u64, other: u64)
    ensures
        part_name(session, number) == part_name(session, other) ==> number == other,
{
    let head = decimal_digits(session as nat) + seq!['-'];
    if part_name(session, number) == part_name(session, other) {
        reveal_strlit(".part");
        let left = decimal_digits(number as nat);
        let right = decimal_digits(other as nat);
        let name = part_name(session, number);
        assert(name =~= head + (left + ".part"@));
        assert(part_name(session, other) =~= head + (right + ".part"@));
        assert(name.len() == head.len() + left.len() + 5);
        assert(left.len() == right.len());
        assert forall|i: int| 0 <= i < left.len() implies left[i] == right[i] by {
            assert(name[head.len() + i] == left[i]);
            assert(part_name(session, other)[head.len() + i] == right[i]);
        }
        assert(left =~= right);
        lemma_decimal_injective(number as nat, other as nat);
    }
}

/// The number moves on with every collection that comes to copying.
pub proof fn law_part_numbers_move_on(
    before: DropsCollectorPlugin,
    size: u64,
    seq: u64,
    now_ms: i64,
    after: DropsCollectorPlugin,
    action: CollectAction,
    seq_after: u64,
)
    requires
        before.phase is Sizing,
        before.name_seq < u64::MAX,
        collects(before, CollectEvent::Size(Some(size)), seq, now_ms, after, action, seq_after),
    ensures
        after.phase matches Phase::Preparing(job, number) ==> number == before.name_seq
            && after.name_seq > number,
        action is MakeDirectory <==> after.phase is Preparing,
{
}

/// The bytes of some chunks, one behind the other.
pub open spec fn bytes_of(chunks: Seq<Seq<u8>>) -> Seq<u8>
    decreases chunks.len(),
{
    if chunks.len() == 0 {
        Seq::empty()
    } else {
        bytes_of(chunks.drop_last()) + chunks.last()
    }
}

/// A file within the cap, to the last byte, is copied whole and in order, however
/// it is cut into chunks; of a larger one some chunk is refused.
pub proof fn law_files_within_the_cap_are_copied_whole(
    cap: u64,
    chunks: Seq<Seq<u8>>,
    copies: Seq<Seq<u8>>,
    within: Seq<bool>,
)
    requires
        copies.len() == chunks.len() + 1,
        within.len() == chunks.len(),
        copies[0].len() == 0,
        forall|k: int|
            0 <= k < chunks.len() ==> takes_in_chunk(
                copies[k],
                cap,
                #[trigger] chunks[k],
                copies[k + 1],
                within[k],
            ),
    ensures
        bytes_of(chunks).len() <= cap ==> copies.last() == bytes_of(chunks) && forall|k: int|
            0 <= k < within.len() ==> #[trigger] within[k],
        bytes_of(chunks).len() > cap ==> exists|k: int| 0 <= k < within.len() && !#[trigger] within[k],
        copies.last().len() <= bytes_of(chunks).len(),
        (forall|k: int| 0 <= k < within.len() ==> #[trigger] within[k]) ==> copies.last() == bytes_of(
            chunks,
        ),
    decreases chunks.len(),
{
    if chunks.len() == 0 {
        assert(copies.last() =~= bytes_of(chunks));
    } else {
        let last = chunks.len() - 1;
        let front = chunks.drop_last();
        let fewer = within.drop_last();
        assert forall|k: int| 0 <= k < front.len() implies takes_in_chunk(
            copies.drop_last()[k],
            cap,
            #[trigger] front[k],
            copies.drop_last()[k + 1],
            fewer[k],
        ) by {
            assert(front[k] == chunks[k]);
        }
        law_files_within_the_cap_are_copied_whole(cap, front, copies.drop_last(), fewer);
        assert(takes_in_chunk(copies[last], cap, chunks[last], copies[last + 1], within[last]));
        assert(copies.drop_last().last() == copies[last]);
        if forall|k: int| 0 <= k < within.len() ==> #[trigger] within[k] {
            assert forall|k: int| 0 <= k < fewer.len() implies #[trigger] fewer[k] by {
                assert(within[k]);
            }
            assert(within[last]);
        }
        if bytes_of(chunks).len() <= cap {
            assert forall|k: int| 0 <= k < within.len() implies #[trigger] within[k] by {
                if k < last {
                    assert(fewer[k] == within[k]);
                }
            }
        } else {
            if bytes_of(front).len() > cap {
                let k = choose|k: int| 0 <= k < fewer.len() && !#[trigger] fewer[k];
                assert(!within[k]);
            } else {
                assert(!within[last]);
            }
        }
    }
}

} // verus!
