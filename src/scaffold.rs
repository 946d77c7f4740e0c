use vstd::prelude::*;

use crate::text::{is_trimmed, trim};

verus! {

/// The AWS regions that a repository can be set up in.
pub open spec fn known_regions_spec() -> Seq<Seq<char>> {
    seq![
        "us-east-1"@, "us-east-2"@, "us-west-1"@, "us-west-2"@, "ap-south-1"@,
        "ap-northeast-1"@, "ap-northeast-2"@, "ap-southeast-1"@, "ap-southeast-2"@,
        "ca-central-1"@, "eu-central-1"@, "eu-west-1"@, "eu-west-2"@, "eu-west-3"@,
        "eu-north-1"@, "sa-east-1"@, "cn-north-1"@, "cn-northwest-1"@, "us-gov-east-1"@,
        "us-gov-west-1"@,
    ]
}

/// The models of a list of strings.
pub open spec fn text_views(s: Seq<String>) -> Seq<Seq<char>> {
    s.map_values(|t: String| t@)
}

/// The known regions, in the order they are suggested.
pub fn known_regions() -> (r: Vec<String>)
    ensures
        text_views(r@) == known_regions_spec(),
{
    let r: Vec<String> = vec![
        "us-east-1".to_owned(), "us-east-2".to_owned(), "us-west-1".to_owned(),
        "us-west-2".to_owned(), "ap-south-1".to_owned(), "ap-northeast-1".to_owned(),
        "ap-northeast-2".to_owned(), "ap-southeast-1".to_owned(), "ap-southeast-2".to_owned(),
        "ca-central-1".to_owned(), "eu-central-1".to_owned(), "eu-west-1".to_owned(),
        "eu-west-2".to_owned(), "eu-west-3".to_owned(), "eu-north-1".to_owned(),
        "sa-east-1".to_owned(), "cn-north-1".to_owned(), "cn-northwest-1".to_owned(),
        "us-gov-east-1".to_owned(), "us-gov-west-1".to_owned(),
    ];
    assert(text_views(r@) =~= known_regions_spec());
    r
}

/// Whether `region` is one of the known regions.
pub fn is_known_region(region: &String) -> (r: bool)
    ensures
        r == known_regions_spec().contains(region@),
{
    let regions = known_regions();
    let mut i: usize = 0;
    while i < regions.len()
        invariant
            text_views(regions@) == known_regions_spec(),
            i <= regions.len(),
            forall|j: int| 0 <= j < i ==> known_regions_spec()[j] != region@,
        decreases regions.len() - i,
    {
        assert(text_views(regions@)[i as int] == regions@[i as int]@);
        if regions[i] == *region {
            return true;
        }
        i = i + 1;
    }
    false
}

/// Whether a confirmation answer accepts: `yes` or `y`.
pub fn is_yes(answer: &String) -> (r: bool)
    ensures
        r == (answer@ == "yes"@ || answer@ == "y"@),
{
    *answer == "yes".to_owned() || *answer == "y".to_owned()
}

/// The path with a `/` at its end, added when it has none.
pub fn with_trailing_slash(path: String) -> (r: String)
    ensures
        path@.len() > 0 && path@.last() == '/' ==> r@ == path@,
        !(path@.len() > 0 && path@.last() == '/') ==> r@ == path@ + "/"@,
{
    let n = path.as_str().unicode_len();
    if n > 0 && path.as_str().get_char(n - 1) == '/' {
        path
    } else {
        let mut r = path;
        r.append("/");
        r
    }
}

/// The pieces of `s` between the separators `sep`, in order; one piece more
/// than there are separators.
pub open spec fn split_on(s: Seq<char>, sep: char) -> Seq<Seq<char>>
    decreases s.len(),
{
    if s.len() == 0 {
        seq![Seq::empty()]
    } else {
        let p = split_on(s.drop_last(), sep);
        if s.last() == sep {
            p.push(Seq::empty())
        } else {
            p.update(p.len() - 1, p.last().push(s.last()))
        }
    }
}

/// The comma-separated items of a list, each trimmed of surrounding white
/// space.
pub fn split_list(s: &str) -> (r: Vec<String>)
    ensures
        r.len() == split_on(s@, ',').len(),
        forall|i: int| 0 <= i < r.len() ==> is_trimmed(split_on(s@, ',')[i], (#[trigger] r@[i])@),
{
    let n = s.unicode_len();
    let mut pieces: Vec<String> = Vec::new();
    let mut start: usize = 0;
    let mut i: usize = 0;
    assert(s@.subrange(0, 0) =~= Seq::<char>::empty());
    assert(pieces@.map_values(|t: String| t@) =~= Seq::<Seq<char>>::empty());
    assert(Seq::<Seq<char>>::empty().push(Seq::<char>::empty()) =~= seq![Seq::<char>::empty()]);
    while i < n
        invariant
            n == s@.len(),
            start <= i <= n,
            split_on(s@.subrange(0, i as int), ',') == pieces@.map_values(
                |t: String| t@,
            ).push(s@.subrange(start as int, i as int)),
        decreases n - i,
    {
        let ghost before = pieces@.map_values(|t: String| t@);
        let ghost pre = s@.subrange(0, i as int);
        assert(s@.subrange(0, i + 1).drop_last() =~= pre);
        if s.get_char(i) == ',' {
            let piece = s.substring_char(start, i).to_owned();
            pieces.push(piece);
            assert(pieces@.map_values(|t: String| t@) =~= before.push(
                s@.subrange(start as int, i as int),
            ));
            start = i + 1;
            assert(s@.subrange(start as int, i + 1) =~= Seq::<char>::empty());
        } else {
            assert(s@.subrange(start as int, i + 1) =~= s@.subrange(start as int, i as int).push(
                s@[i as int],
            ));
            assert(split_on(s@.subrange(0, i + 1), ',') =~= before.push(
                s@.subrange(start as int, i + 1),
            ));
        }
        i = i + 1;
    }
    let last = s.substring_char(start, n).to_owned();
    pieces.push(last);
    assert(s@.subrange(0, n as int) =~= s@);
    assert(pieces@.map_values(|t: String| t@) =~= split_on(s@, ','));
    let mut r: Vec<String> = Vec::new();
    let mut k: usize = 0;
    while k < pieces.len()
        invariant
            k <= pieces.len(),
            pieces@.map_values(|t: String| t@) == split_on(s@, ','),
            r.len() == k,
            forall|j: int| 0 <= j < k ==> is_trimmed(split_on(s@, ',')[j], (#[trigger] r@[j])@),
        decreases pieces.len() - k,
    {
        assert(pieces@.map_values(|t: String| t@)[k as int] == pieces@[k as int]@);
        r.push(trim(pieces[k].as_str()));
        k = k + 1;
    }
    r
}

} // verus!
