use super::grammar::{no_empty_symbol, same_file, Symbols};
use crate::span::{Location, Span, Spanned};
use unicode_segmentation::UnicodeSegmentation;
use vstd::prelude::*;
use vstd::seq_lib::lemma_flatten_concat;

verus! {

/// The extended grapheme clusters of a text, in order, as the segmentation
/// rules of the Unicode standard cut them.
pub uninterp spec fn grapheme_clusters(text: Seq<char>) -> Seq<Seq<char>>;

/// Cuts a text into its extended grapheme clusters by
/// `UnicodeSegmentation::graphemes`. Nothing is proved of the cut itself:
/// it is taken to be `grapheme_clusters` of the text, to leave no cluster
/// empty, and to lose or add no character, so that the clusters put
/// together again are the text.
#[verifier::external_body]
fn graphemes<'a>(text: &'a str) -> (clusters: Vec<&'a str>)
    ensures
        clusters.deep_view() == grapheme_clusters(text@),
        clusters.deep_view().flatten() == text@,
        forall|i: int| 0 <= i < clusters.len() ==> (#[trigger] clusters[i])@.len() > 0,
{
    UnicodeSegmentation::graphemes(text, true).collect()
}

/// The symbol that the scanner makes of the cluster at `i`: its span starts
/// after all characters of the clusters before it and is as long as the
/// cluster has characters.
pub open spec fn symbol_at(clusters: Seq<Seq<char>>, file_id: usize, i: int) -> Spanned<
    Seq<char>,
> {
    Spanned {
        node: clusters[i],
        span: Span {
            file_id,
            from: Location { offset: clusters.take(i).flatten().len() as usize },
            to: Location { offset: clusters.take(i + 1).flatten().len() as usize },
        },
    }
}

/// The symbols that the scanner makes of the clusters of a text.
pub open spec fn spec_locate(clusters: Seq<Seq<char>>, file_id: usize) -> Symbols {
    Seq::new(clusters.len(), |i: int| symbol_at(clusters, file_id, i))
}

/// The first clusters of a text hold no more characters than all of them.
pub proof fn lemma_prefix_length(clusters: Seq<Seq<char>>, i: int)
    requires
        0 <= i <= clusters.len(),
    ensures
        clusters.take(i).flatten().len() <= clusters.flatten().len(),
        i < clusters.len() ==> clusters.take(i + 1).flatten() == clusters.take(i).flatten()
            + clusters[i],
{
    assert(clusters =~= clusters.take(i) + clusters.skip(i));
    lemma_flatten_concat(clusters.take(i), clusters.skip(i));
    if i < clusters.len() {
        assert(clusters.take(i + 1) =~= clusters.take(i).push(clusters[i]));
        clusters.take(i).lemma_flatten_push(clusters[i]);
    }
}

/// Gives each cluster of a text its place: the number of characters before
/// it and after it, counted from the start of the text.
pub fn locate<'a>(clusters: &[&'a str], file_id: usize) -> (symbols: Vec<Spanned<&'a str>>)
    requires
        clusters.deep_view().flatten().len() <= usize::MAX,
    ensures
        symbols.deep_view() == spec_locate(clusters.deep_view(), file_id),
{
    let ghost view = clusters.deep_view();
    let mut symbols: Vec<Spanned<&'a str>> = Vec::new();
    let mut location = Location { offset: 0 };
    let mut i: usize = 0;
    while i < clusters.len()
        invariant
            view == clusters.deep_view(),
            view.flatten().len() <= usize::MAX,
            i <= clusters.len(),
            location.offset == view.take(i as int).flatten().len(),
            symbols.len() == i,
            forall|k: int| 0 <= k < i ==> (#[trigger] symbols[k]).deep_view() == symbol_at(view, file_id, k),
        decreases clusters.len() - i,
    {
        proof {
            lemma_prefix_length(view, i as int);
            lemma_prefix_length(view, i + 1);
        }
        let current = location;
        location.offset = location.offset + clusters[i].unicode_len();
        symbols.push(Spanned { node: clusters[i], span: Span { file_id, from: current, to: location } });
        i += 1;
    }
    proof {
        assert(view.take(0).flatten() =~= Seq::<char>::empty()) by {
            assert(view.take(0) =~= Seq::<Seq<char>>::empty());
        }
        assert(symbols.deep_view() =~= spec_locate(view, file_id));
    }
    symbols
}

/// Splits a source text into symbols, one for each grapheme cluster, each
/// with the span of characters it takes in the text.
pub fn scan<'a>(string: &'a str, file_id: usize) -> (symbols: Vec<Spanned<&'a str>>)
    ensures
        symbols.deep_view() == spec_locate(grapheme_clusters(string@), file_id),
        same_file(symbols.deep_view()),
        no_empty_symbol(symbols.deep_view()),
{
    let clusters = graphemes(string);
    // Counting the characters shows that a `usize` can count them, and so
    // that it can hold every offset: the clusters hold no character more.
    let _ = string.unicode_len();
    locate(clusters.as_slice(), file_id)
}

} // verus!
