//! Stored images and sounds.
use crate::reply::{
    Reply, add_header, cors, cors_headers, err_res, error_reply, header_texts,
};
use crate::text::{
    after, ends, ends_with, law_front_and_suffix, law_prefix_and_rest, opt_string, strip_leading,
    strip_prefix, without_leading,
};
use vstd::prelude::*;

verus! {

/// Under which name the asset at a path is stored, where the path gives a name.
pub open spec fn asset_name(path: Seq<char>) -> Option<Seq<char>> {
    let rest = without_leading(path, '/');
    let name = match after(rest, "assets/"@) {
        Some(n) => n,
        None => rest,
    };
    if name.len() == 0 {
        None
    } else {
        Some(name)
    }
}

/// Finds under which name the asset at a path is stored.
pub fn asset_key(path: &str) -> (r: Option<String>)
    ensures
        opt_string(r) == asset_name(path@),
{
    let rest = strip_leading(path, '/');
    let name = match strip_prefix(rest, "assets/") {
        Some(n) => n,
        None => rest,
    };
    if name.is_empty() {
        None
    } else {
        Some(name.to_string())
    }
}

/// The type of an asset's content, by the ending of its name.
pub open spec fn content_type(name: Seq<char>) -> Seq<char> {
    if ends(name, ".png"@) {
        "image/png"@
    } else if ends(name, ".mp3"@) || ends(name, ".wav"@) {
        "audio/mpeg"@
    } else if ends(name, ".jpg"@) || ends(name, ".jpeg"@) {
        "image/jpeg"@
    } else {
        "application/octet-stream"@
    }
}

/// Tells the type of an asset's content.
pub fn asset_type(name: &str) -> (r: &'static str)
    ensures
        r@ == content_type(name@),
{
    if ends_with(name, ".png") {
        "image/png"
    } else if ends_with(name, ".mp3") || ends_with(name, ".wav") {
        "audio/mpeg"
    } else if ends_with(name, ".jpg") || ends_with(name, ".jpeg") {
        "image/jpeg"
    } else {
        "application/octet-stream"
    }
}

/// The headers with which an asset is given out.
pub open spec fn asset_header_texts(name: Seq<char>) -> Seq<(Seq<char>, Seq<char>)> {
    seq![
        ("Content-Type"@, content_type(name)),
        ("Cache-Control"@, "public, max-age=86400"@),
    ] + cors()
}

/// Chooses the headers with which an asset is given out.
pub fn asset_headers(name: &str) -> (r: Vec<(String, String)>)
    ensures
        header_texts(r@) == asset_header_texts(name@),
{
    let mut headers: Vec<(String, String)> = Vec::new();
    add_header(&mut headers, "Content-Type", asset_type(name));
    add_header(&mut headers, "Cache-Control", "public, max-age=86400");
    assert(header_texts(headers@) =~= seq![
        ("Content-Type"@, content_type(name@)),
        ("Cache-Control"@, "public, max-age=86400"@),
    ]);
    cors_headers(&mut headers);
    headers
}

/// The reply where there is nothing at a path.
pub fn not_found() -> (r: Reply)
    ensures
        r@ == error_reply(404, "Not Found"@),
{
    err_res(404, "Not Found")
}

/// An asset has the same name with its directory in front and without it, unless its
/// name begins with a slash or with the directory's name once more.
pub proof fn law_directory_does_not_count(name: Seq<char>)
    requires
        name.len() > 0,
        name[0] != '/',
        after(name, "assets/"@) is None,
    ensures
        asset_name(name) == Some(name),
        asset_name("/"@ + name) == Some(name),
        asset_name("/assets/"@ + name) == Some(name),
{
    reveal_strlit("/");
    reveal_strlit("assets/");
    reveal_strlit("/assets/");
    reveal_with_fuel(without_leading, 3);
    assert(("/"@ + name).skip(1) =~= name);
    let dir = "assets/"@ + name;
    assert(("/assets/"@ + name).skip(1) =~= dir);
    assert(dir[0] == 'a');
    assert(dir.take("assets/"@.len() as int) =~= "assets/"@);
    assert(dir.skip("assets/"@.len() as int) =~= name);
}

/// The type of an asset's content is told by the ending of its name, as it is written.
pub proof fn law_endings_tell_types(front: Seq<char>, name: Seq<char>)
    ensures
        content_type(front + ".png"@) == "image/png"@,
        content_type(front + ".mp3"@) == "audio/mpeg"@,
        content_type(front + ".wav"@) == "audio/mpeg"@,
        content_type(front + ".jpg"@) == "image/jpeg"@,
        content_type(front + ".jpeg"@) == "image/jpeg"@,
        !ends(name, ".png"@) && !ends(name, ".mp3"@) && !ends(name, ".wav"@) && !ends(name, ".jpg"@)
            && !ends(name, ".jpeg"@) ==> content_type(name) == "application/octet-stream"@,
{
    reveal_strlit(".png");
    reveal_strlit(".mp3");
    reveal_strlit(".wav");
    reveal_strlit(".jpg");
    reveal_strlit(".jpeg");
    law_front_and_suffix(name, front, ".png"@);
    law_front_and_suffix(name, front, ".mp3"@);
    law_front_and_suffix(name, front, ".wav"@);
    law_front_and_suffix(name, front, ".jpg"@);
    law_front_and_suffix(name, front, ".jpeg"@);
    lemma_ending(front, ".mp3"@, ".png"@);
    lemma_ending(front, ".wav"@, ".png"@);
    lemma_ending(front, ".jpg"@, ".png"@);
    lemma_ending(front, ".jpg"@, ".mp3"@);
    lemma_ending(front, ".jpg"@, ".wav"@);
    lemma_ending(front, ".jpeg"@, ".png"@);
    lemma_ending(front, ".jpeg"@, ".mp3"@);
    lemma_ending(front, ".jpeg"@, ".wav"@);
    assert(".png"@[2] == 'n' && ".mp3"@[2] == 'p' && ".wav"@[2] == 'a' && ".jpg"@[2] == 'p');
    assert(".mp3"@[3] == '3' && ".jpg"@[3] == 'g' && ".png"@[3] == 'g' && ".wav"@[3] == 'v');
    assert(".jpeg"@[4] == 'g' && ".jpeg"@[3] == 'e');
}

/// A text that ends in two ways ends in the same last two characters.
proof fn lemma_ending(front: Seq<char>, suffix: Seq<char>, other: Seq<char>)
    requires
        suffix.len() >= 2,
        other.len() >= 2,
    ensures
        ends(front + suffix, other) ==> suffix.last() == other.last() && suffix[suffix.len() - 2]
            == other[other.len() - 2],
{
    let whole = front + suffix;
    if ends(whole, other) {
        let tail = whole.skip(whole.len() - other.len());
        assert(tail[other.len() - 1] == whole[whole.len() - 1]);
        assert(tail[other.len() - 2] == whole[whole.len() - 2]);
    }
}

/// An asset is given out under its type, may be kept for a day, and may be read by browsers
/// on any site.
pub proof fn law_assets_may_be_kept(name: Seq<char>)
    ensures
        asset_header_texts(name)[0] == ("Content-Type"@, content_type(name)),
        asset_header_texts(name)[1] == ("Cache-Control"@, "public, max-age=86400"@),
        asset_header_texts(name).skip(2) == cors(),
{
    assert(asset_header_texts(name).skip(2) =~= cors());
}

/// A path without a name, whatever slashes it has in front, gives no asset.
pub proof fn law_paths_without_a_name(path: Seq<char>)
    ensures
        asset_name(path) is None <==> without_leading(path, '/').len() == 0 || without_leading(
            path,
            '/',
        ) == "assets/"@,
        asset_name(path) matches Some(name) ==> without_leading(path, '/') == name
            || without_leading(path, '/') == "assets/"@ + name,
{
    let rest = without_leading(path, '/');
    law_prefix_and_rest(rest, "assets/"@, Seq::empty());
    assert("assets/"@ + Seq::<char>::empty() =~= "assets/"@);
}

} // verus!
