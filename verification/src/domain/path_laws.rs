//! What the extension of a path is, read off its characters.

use vstd::prelude::*;

use crate::domain::image_name::{
    component_len, divides, ends_idly, file_name, is_verbatim, last_dot, last_segment, law_last_segment_is_a_tail,
    law_prefix_is_a_head, name_extension, path_extension, path_file_name, prefix_len, segment_in,
    without_prefix,
};

verus! {

/// Characters that divide nothing make the last segment longer.
pub proof fn lemma_segment_grows(verbatim: bool, path: Seq<char>, tail: Seq<char>)
    requires
        forall|i: int| 0 <= i < tail.len() ==> !divides(verbatim, #[trigger] tail[i]),
    ensures
        segment_in(verbatim, path + tail) == segment_in(verbatim, path) + tail,
    decreases tail.len(),
{
    if tail.len() == 0 {
        assert(path + tail =~= path);
        assert(segment_in(verbatim, path) + tail =~= segment_in(verbatim, path));
    } else {
        let whole = path + tail;
        assert(whole.drop_last() =~= path + tail.drop_last());
        assert forall|i: int| 0 <= i < tail.drop_last().len() implies !divides(
            verbatim,
            #[trigger] tail.drop_last()[i],
        ) by {
            assert(tail.drop_last()[i] == tail[i]);
        }
        lemma_segment_grows(verbatim, path, tail.drop_last());
        assert(whole.last() == tail[tail.len() - 1]);
        assert(segment_in(verbatim, whole) =~= segment_in(verbatim, path) + tail);
    }
}

/// The last dot is one, and none follows it.
pub proof fn lemma_last_dot(name: Seq<char>)
    ensures
        -1 <= last_dot(name) < name.len(),
        last_dot(name) >= 0 ==> name[last_dot(name)] == '.',
        forall|i: int| last_dot(name) < i < name.len() ==> #[trigger] name[i] != '.',
    decreases name.len(),
{
    if name.len() > 0 && name.last() != '.' {
        lemma_last_dot(name.drop_last());
        assert forall|i: int| last_dot(name) < i < name.len() implies #[trigger] name[i] != '.' by {
            if i < name.len() - 1 {
                assert(name.drop_last()[i] == name[i]);
            }
        }
    }
}

/// The last segment is all that follows the last divider.
pub proof fn law_last_segment_follows_the_last_divider(head: Seq<char>, divider: char, name: Seq<char>)
    requires
        divider == '/' || divider == '\\',
        forall|i: int| 0 <= i < name.len() ==> #[trigger] name[i] != '/' && name[i] != '\\',
    ensures
        last_segment(head.push(divider) + name) == name,
        last_segment(name) == name,
{
    lemma_segment_grows(false, head.push(divider), name);
    lemma_segment_grows(false, Seq::empty(), name);
    assert(segment_in(false, head.push(divider)) =~= Seq::empty());
    assert(Seq::<char>::empty() + name =~= name);
}

/// A path that ends in a dot and characters that neither are dots nor divide has
/// those characters as its extension, whatever stands before the dot, as long as
/// the name goes on there.
pub proof fn law_extension_follows_the_dot(before: Seq<char>, extension: Seq<char>)
    requires
        extension.len() > 0,
        forall|i: int|
            0 <= i < extension.len() ==> #[trigger] extension[i] != '.' && extension[i] != '/'
                && extension[i] != '\\',
        prefix_len(before.push('.') + extension) < before.len(),
        !divides(is_verbatim(before.push('.') + extension), before.last()),
    ensures
        path_extension(before.push('.') + extension) == Some(extension),
{
    let path = before.push('.') + extension;
    let verbatim = is_verbatim(path);
    let cut = prefix_len(path) as int;
    let inner = before.skip(cut);
    let tail = seq!['.'] + extension;
    let body = without_prefix(path);
    assert(body =~= inner + tail);
    assert forall|i: int| 0 <= i < tail.len() implies !divides(verbatim, #[trigger] tail[i]) by {
        if i > 0 {
            assert(tail[i] == extension[i - 1]);
        }
    }
    lemma_segment_grows(verbatim, inner, tail);
    assert(inner.last() == before.last());
    let name = segment_in(verbatim, body);
    let stem = segment_in(verbatim, inner);
    assert(stem.len() > 0);
    assert(name == stem + tail);
    assert(body.last() == extension.last());
    assert(extension.last() == extension[extension.len() - 1]);
    assert(name.len() >= 3);
    assert(!ends_idly(verbatim, body));
    assert(file_name(verbatim, body) == name);
    lemma_last_dot(name);
    assert(name[stem.len() as int] == '.');
    if last_dot(name) > stem.len() {
        assert(name[last_dot(name)] == extension[last_dot(name) - stem.len() - 1]);
    }
    assert(last_dot(name) == stem.len());
    assert(name.skip(last_dot(name) + 1) =~= extension);
}

/// An extension holds no dot, and a name that has one goes on before its dot.
pub proof fn law_extension_ends_its_name(name: Seq<char>)
    ensures
        name_extension(name) matches Some(extension) ==> {
            &&& 0 <= name.len() - extension.len() - 1
            &&& name == name.take(name.len() - extension.len() - 1).push('.') + extension
            &&& name.len() > extension.len() + 1
            &&& forall|i: int| 0 <= i < extension.len() ==> #[trigger] extension[i] != '.'
        },
        name_extension(name) is None ==> {
            ||| name == seq!['.', '.']
            ||| forall|i: int| 0 < i < name.len() ==> #[trigger] name[i] != '.'
        },
{
    lemma_last_dot(name);
    if name_extension(name) is Some {
        let extension = name_extension(name)->0;
        let dot = last_dot(name);
        assert(name =~= name.take(dot).push('.') + extension);
        assert forall|i: int| 0 <= i < extension.len() implies #[trigger] extension[i] != '.' by {
            assert(extension[i] == name[dot + 1 + i]);
        }
    }
}

/// The name of a file has no divider in it, and is where its extension stands.
pub proof fn law_a_file_name_is_one_segment(path: Seq<char>)
    ensures
        path_file_name(path) matches Some(name) ==> {
            &&& forall|i: int|
                0 <= i < name.len() ==> !divides(is_verbatim(path), #[trigger] name[i])
            &&& path_extension(path) == name_extension(name)
        },
        path_file_name(path) is None ==> path_extension(path) is None,
{
    lemma_file_name_is_one_segment(is_verbatim(path), without_prefix(path));
    let name = file_name(is_verbatim(path), without_prefix(path));
    lemma_last_dot(name);
    if name == seq!['.'] {
        assert(name.len() == 1);
    }
}

/// The name of a file has no divider in it.
pub proof fn lemma_file_name_is_one_segment(verbatim: bool, path: Seq<char>)
    ensures
        forall|i: int|
            0 <= i < file_name(verbatim, path).len() ==> !divides(
                verbatim,
                #[trigger] file_name(verbatim, path)[i],
            ),
    decreases path.len(),
{
    let name = file_name(verbatim, path);
    if path.len() > 0 {
        if ends_idly(verbatim, path) {
            lemma_file_name_is_one_segment(verbatim, path.drop_last());
            assert(name == file_name(verbatim, path.drop_last()));
        } else {
            law_last_segment_is_a_tail(verbatim, path);
            assert(name == segment_in(verbatim, path));
            assert forall|i: int| 0 <= i < name.len() implies !divides(verbatim, #[trigger] name[i]) by {
                assert(segment_in(verbatim, path)[i] == name[i]);
            }
        }
    }
}

/// The name of a file is what follows the last divider.
pub proof fn law_the_file_name_follows_the_last_divider(
    head: Seq<char>,
    divider: char,
    name: Seq<char>,
)
    requires
        ({
            let path = head.push(divider) + name;
            &&& prefix_len(path) <= head.len()
            &&& divides(is_verbatim(path), divider)
        }),
        name.len() > 0,
        forall|i: int| 0 <= i < name.len() ==> #[trigger] name[i] != '/' && name[i] != '\\',
        name != seq!['.'],
        name != seq!['.', '.'],
    ensures
        path_file_name(head.push(divider) + name) == Some(name),
        path_extension(head.push(divider) + name) == name_extension(name),
{
    let path = head.push(divider) + name;
    let verbatim = is_verbatim(path);
    let body = without_prefix(path);
    let inner = head.skip(prefix_len(path) as int).push(divider);
    assert(body =~= inner + name);
    lemma_segment_grows(verbatim, inner, name);
    assert(segment_in(verbatim, inner) =~= Seq::empty());
    assert(Seq::<char>::empty() + name =~= name);
    assert(body.last() == name[name.len() - 1]);
    assert(!ends_idly(verbatim, body));
}

/// The name of a file is made of the path's own characters.
pub proof fn lemma_file_name_is_from_the_path(verbatim: bool, path: Seq<char>)
    ensures
        forall|i: int|
            0 <= i < file_name(verbatim, path).len() ==> path.contains(
                #[trigger] file_name(verbatim, path)[i],
            ),
    decreases path.len(),
{
    let name = file_name(verbatim, path);
    if path.len() > 0 {
        let front = path.drop_last();
        if ends_idly(verbatim, path) {
            lemma_file_name_is_from_the_path(verbatim, front);
            assert forall|i: int| 0 <= i < name.len() implies path.contains(#[trigger] name[i]) by {
                assert(front.contains(file_name(verbatim, front)[i]));
                let at = choose|at: int| 0 <= at < front.len() && front[at] == name[i];
                assert(path[at] == name[i]);
            }
        } else {
            law_last_segment_is_a_tail(verbatim, path);
            assert forall|i: int| 0 <= i < name.len() implies path.contains(#[trigger] name[i]) by {
                assert(path[path.len() - name.len() + i] == name[i]);
            }
        }
    }
}

/// Without a dot there is no extension.
pub proof fn law_no_dot_no_extension(path: Seq<char>)
    requires
        !path.contains('.'),
    ensures
        path_extension(path) is None,
{
    let body = without_prefix(path);
    let name = file_name(is_verbatim(path), body);
    law_prefix_is_a_head(path);
    lemma_file_name_is_from_the_path(is_verbatim(path), body);
    lemma_last_dot(name);
    if last_dot(name) >= 0 {
        assert(body.contains(name[last_dot(name)]));
        let at = choose|at: int| 0 <= at < body.len() && body[at] == '.';
        assert(path[prefix_len(path) + at] == '.');
    }
}

/// A trailing divider changes neither the name nor the extension of a path that
/// starts with no prefix.
pub proof fn law_a_trailing_divider_is_idle(path: Seq<char>)
    requires
        path.len() > 0,
        prefix_len(path) == 0,
        prefix_len(path.push('\\')) == 0,
        !is_verbatim(path.push('\\')),
        !is_verbatim(path),
    ensures
        path_extension(path.push('\\')) == path_extension(path),
        path_file_name(path.push('\\')) == path_file_name(path),
{
    law_prefix_is_a_head(path);
    let longer = path.push('\\');
    assert(without_prefix(longer) =~= longer);
    assert(without_prefix(path) =~= path);
    assert(longer.drop_last() =~= path);
    assert(file_name(false, longer) == file_name(false, path));
}

/// A component reaches to the next divider.
proof fn lemma_component_len(verbatim: bool, head: Seq<char>, rest: Seq<char>)
    requires
        forall|i: int| 0 <= i < head.len() ==> !divides(verbatim, #[trigger] head[i]),
        rest.len() == 0 || divides(verbatim, rest[0]),
    ensures
        component_len(verbatim, head + rest) == head.len(),
    decreases head.len(),
{
    if head.len() == 0 {
        assert(head + rest =~= rest);
    } else {
        let inner = head.skip(1);
        assert forall|i: int| 0 <= i < inner.len() implies !divides(verbatim, #[trigger] inner[i]) by {
            assert(inner[i] == head[i + 1]);
        }
        lemma_component_len(verbatim, inner, rest);
        assert((head + rest).skip(1) =~= inner + rest);
        assert(!divides(verbatim, head[0]));
    }
}

/// A drive is no part of a file's name: what follows the colon is the name.
pub proof fn law_a_drive_is_no_part_of_the_name(letter: char, name: Seq<char>)
    requires
        'a' <= letter <= 'z' || 'A' <= letter <= 'Z',
        name.len() > 0,
        forall|i: int| 0 <= i < name.len() ==> #[trigger] name[i] != '/' && name[i] != '\\',
        name != seq!['.'],
        name != seq!['.', '.'],
    ensures
        path_file_name(seq![letter, ':'] + name) == Some(name),
        path_extension(seq![letter, ':'] + name) == name_extension(name),
        path_file_name(seq![letter, ':']) is None,
{
    let path = seq![letter, ':'] + name;
    let empty = Seq::<char>::empty();
    assert(prefix_len(path) == 2);
    assert(!is_verbatim(path));
    assert(without_prefix(path) =~= empty + name);
    lemma_segment_grows(false, empty, name);
    assert(empty + name =~= name);
    assert(name.last() == name[name.len() - 1]);
    assert(!ends_idly(false, name));
    assert(prefix_len(seq![letter, ':']) == 2);
    assert(without_prefix(seq![letter, ':']) =~= empty);
}

/// A share is no file: the path of a share alone names none, and below it the
/// name is what follows the last divider.
pub proof fn law_a_share_is_no_file(server: Seq<char>, share: Seq<char>, name: Seq<char>)
    requires
        server.len() > 0,
        share.len() > 0,
        name.len() > 0,
        forall|i: int| 0 <= i < server.len() ==> #[trigger] server[i] != '/' && server[i] != '\\',
        forall|i: int| 0 <= i < share.len() ==> #[trigger] share[i] != '/' && share[i] != '\\',
        forall|i: int| 0 <= i < name.len() ==> #[trigger] name[i] != '/' && name[i] != '\\',
        server != seq!['.'],
        server != seq!['?'],
        name != seq!['.'],
        name != seq!['.', '.'],
    ensures
        ({
            let root = seq!['\\', '\\'] + server + seq!['\\'] + share;
            &&& path_file_name(root) is None
            &&& path_extension(root) is None
            &&& path_file_name(root.push('\\') + name) == Some(name)
        }),
{
    let root = seq!['\\', '\\'] + server + seq!['\\'] + share;
    let path = root.push('\\') + name;
    lemma_share_prefix(server, share, Seq::empty());
    assert(root + Seq::<char>::empty() =~= root);
    assert(without_prefix(root) =~= Seq::<char>::empty());
    lemma_share_prefix(server, share, seq!['\\'] + name);
    assert(root + (seq!['\\'] + name) =~= path);
    law_the_file_name_follows_the_last_divider(root, '\\', name);
}

/// The prefix of a path below a share ends with the share.
proof fn lemma_share_prefix(server: Seq<char>, share: Seq<char>, rest: Seq<char>)
    requires
        server.len() > 0,
        share.len() > 0,
        forall|i: int| 0 <= i < server.len() ==> #[trigger] server[i] != '/' && server[i] != '\\',
        forall|i: int| 0 <= i < share.len() ==> #[trigger] share[i] != '/' && share[i] != '\\',
        server != seq!['.'],
        server != seq!['?'],
        rest.len() == 0 || rest[0] == '\\',
    ensures
        ({
            let root = seq!['\\', '\\'] + server + seq!['\\'] + share;
            &&& prefix_len(root + rest) == root.len()
            &&& !is_verbatim(root + rest)
        }),
{
    let root = seq!['\\', '\\'] + server + seq!['\\'] + share;
    let path = root + rest;
    let behind = seq!['\\'] + share + rest;
    assert(path.skip(2) =~= server + behind);
    lemma_component_len(false, server, behind);
    assert(path.skip(2).skip(server.len() as int + 1) =~= share + rest);
    lemma_component_len(false, share, rest);
    assert(path[2] == server[0]);
    if server.len() == 1 {
        assert(server =~= seq![server[0]]);
    } else {
        assert(path[3] == server[1]);
    }
}

} // verus!
