//! The results of an image download: the search results kept for the user to
//! choose from, and the images downloaded for each of them.
use vstd::prelude::*;

verus! {

/// The successful search results, in order.
pub open spec fn oks<S, E>(results: Seq<Result<S, E>>) -> Seq<S>
    decreases results.len(),
{
    if results.len() == 0 {
        Seq::empty()
    } else {
        let rest = oks(results.drop_last());
        match results.last() {
            Ok(s) => rest.push(s),
            Err(_) => rest,
        }
    }
}

/// A successful result met last is offered last; a failed one adds nothing.
pub proof fn law_oks_push<S, E>(results: Seq<Result<S, E>>, s: S, e: E)
    ensures
        oks(results.push(Ok(s))) == oks(results).push(s),
        oks(results.push(Err(e))) == oks(results),
{
    assert(results.push(Ok::<S, E>(s)).drop_last() =~= results);
    assert(results.push(Err::<S, E>(e)).drop_last() =~= results);
}

/// The number of successful results.
pub open spec fn ok_count<S, E>(results: Seq<Result<S, E>>) -> nat
    decreases results.len(),
{
    if results.len() == 0 {
        0
    } else {
        ok_count(results.drop_last()) + if results.last() is Ok { 1nat } else { 0nat }
    }
}

/// Every successful result is kept, each in its place: as many are kept as
/// succeeded, and each success is kept.
pub proof fn law_oks_keeps_every_success<S, E>(results: Seq<Result<S, E>>)
    ensures
        oks(results).len() == ok_count(results),
        forall|i: int| 0 <= i < results.len() && #[trigger] results[i] is Ok ==> oks(results).contains(
            results[i]->Ok_0,
        ),
    decreases results.len(),
{
    if results.len() > 0 {
        let init = results.drop_last();
        law_oks_keeps_every_success(init);
        let rest = oks(init);
        let all = oks(results);
        assert forall|i: int| 0 <= i < results.len() && #[trigger] results[i] is Ok implies all.contains(
            results[i]->Ok_0,
        ) by {
            if i < results.len() - 1 {
                assert(init[i] == results[i]);
                let w = choose|w: int| 0 <= w < rest.len() && rest[w] == init[i]->Ok_0;
                if results.last() is Ok {
                    assert(all[w] == rest[w]);
                }
            } else {
                assert(all[all.len() - 1] == results[i]->Ok_0);
            }
        }
    }
}

/// Keeps the successful search results, in order.
pub fn successful<S, E>(results: Vec<Result<S, E>>) -> (kept: Vec<S>)
    ensures
        kept@ == oks(results@),
        kept@.len() == ok_count(results@),
        forall|i: int| 0 <= i < results@.len() && #[trigger] results@[i] is Ok ==> kept@.contains(
            results@[i]->Ok_0,
        ),
{
    proof { law_oks_keeps_every_success(results@); }
    let ghost all = results@;
    let mut results = results;
    let mut rev: Vec<S> = Vec::new();
    while results.len() > 0
        invariant
            all == results@ + (all.skip(results@.len() as int)),
            results@.len() <= all.len(),
            oks(all) == oks(results@) + rev@.reverse(),
        decreases results@.len(),
    {
        let ghost before = results@;
        let last = results.pop().unwrap();
        proof {
            assert(before.drop_last() =~= results@);
            assert(all.skip(results@.len() as int) =~= seq![last] + all.skip(before.len() as int));
        }
        match last {
            Ok(s) => {
                let ghost old_rev = rev@;
                rev.push(s);
                proof {
                    assert(rev@.reverse() =~= seq![s] + old_rev.reverse());
                    assert(oks(before) == oks(results@).push(s));
                    assert(oks(results@).push(s) + old_rev.reverse() =~= oks(results@) + (seq![s]
                        + old_rev.reverse()));
                }
            },
            Err(_) => {},
        }
    }
    proof {
        assert(oks(results@) =~= Seq::<S>::empty());
    }
    let mut kept: Vec<S> = Vec::new();
    let ghost target = rev@.reverse();
    while rev.len() > 0
        invariant
            target == kept@ + rev@.reverse(),
        decreases rev@.len(),
    {
        let ghost before = rev@;
        let s = rev.pop().unwrap();
        proof {
            assert(before.reverse() =~= seq![s] + rev@.reverse());
        }
        kept.push(s);
        proof {
            assert(kept@ + rev@.reverse() =~= target);
        }
    }
    assert(kept@ =~= target);
    kept
}

/// The images downloaded for the search results offered, one list per kind
/// of image (a logo and a photo, or a cover), each as long as the number of
/// results offered.
#[derive(Debug)]
pub struct DownloadChoices {
    offered: usize,
    images: Vec<Vec<Option<Vec<u8>>>>,
}

/// An optional image by its view.
pub open spec fn image_view(image: Option<Vec<u8>>) -> Option<Seq<u8>> {
    match image {
        Some(b) => Some(b@),
        None => None,
    }
}

impl View for DownloadChoices {
    type V = (nat, Seq<Seq<Option<Seq<u8>>>>);

    closed spec fn view(&self) -> (nat, Seq<Seq<Option<Seq<u8>>>>) {
        (
            self.offered as nat,
            self.images@.map_values(|list: Vec<Option<Vec<u8>>>| list@.map_values(|i: Option<Vec<u8>>| image_view(i))),
        )
    }
}

impl DownloadChoices {
    /// Whether every list of images is as long as the number of results offered.
    pub open spec fn wf(&self) -> bool {
        forall|k: int| 0 <= k < self@.1.len() ==> (#[trigger] self@.1[k]).len() == self@.0
    }

    /// No result offered, `kinds` empty lists of images.
    pub fn new(kinds: usize) -> (choices: Self)
        ensures
            choices.wf(),
            choices@.0 == 0,
            choices@.1 == Seq::new(kinds as nat, |k: int| Seq::<Option<Seq<u8>>>::empty()),
    {
        let mut images: Vec<Vec<Option<Vec<u8>>>> = Vec::new();
        let mut k: usize = 0;
        while k < kinds
            invariant
                k <= kinds,
                images@.len() == k,
                forall|j: int| 0 <= j < k ==> (#[trigger] images@[j])@.len() == 0,
            decreases kinds - k,
        {
            images.push(Vec::new());
            k = k + 1;
        }
        let choices = DownloadChoices { offered: 0, images };
        assert forall|j: int| 0 <= j < kinds implies #[trigger] choices@.1[j] =~= Seq::<Option<Seq<u8>>>::empty() by {
            assert(choices@.1[j] == choices.images@[j]@.map_values(|i: Option<Vec<u8>>| image_view(i)));
        }
        assert(choices@.1 =~= Seq::new(kinds as nat, |k: int| Seq::<Option<Seq<u8>>>::empty()));
        choices
    }

    /// How many results are offered.
    pub fn offered(&self) -> (count: usize)
        ensures
            count == self@.0,
    {
        self.offered
    }

    /// Offers `more` results besides those already offered, with no image yet.
    pub fn offer(&mut self, more: usize)
        requires
            old(self).wf(),
            old(self)@.0 + more <= usize::MAX,
        ensures
            final(self).wf(),
            final(self)@.0 == old(self)@.0 + more,
            final(self)@.1.len() == old(self)@.1.len(),
            forall|k: int| 0 <= k < final(self)@.1.len() ==> (#[trigger] final(self)@.1[k]) == old(self)@.1[k] + Seq::new(
                more as nat,
                |i: int| None::<Seq<u8>>,
            ),
    {
        let ghost start = self@;
        let target = self.offered + more;
        let mut k: usize = 0;
        let mut images: Vec<Vec<Option<Vec<u8>>>> = Vec::new();
        std::mem::swap(&mut images, &mut self.images);
        let ghost original = images@;
        let count = images.len();
        let mut grown: Vec<Vec<Option<Vec<u8>>>> = Vec::new();
        proof {
            assert forall|j: int| 0 <= j < original.len() implies (#[trigger] original[j])@.map_values(
                |i: Option<Vec<u8>>| image_view(i),
            ) == start.1[j] && original[j]@.len() == start.0 by {
                assert(start.1[j] == original[j]@.map_values(|i: Option<Vec<u8>>| image_view(i)));
                assert(start.1[j].len() == start.0);
            }
        }
        while k < count
            invariant
                k <= count,
                count == original.len(),
                images@ == original.skip(k as int),
                grown@.len() == k,
                target == start.0 + more,
                start.1.len() == original.len(),
                forall|j: int| 0 <= j < original.len() ==> (#[trigger] original[j])@.len() == start.0,
                forall|j: int| 0 <= j < original.len() ==> (#[trigger] original[j])@.map_values(
                    |i: Option<Vec<u8>>| image_view(i),
                ) == start.1[j],
                forall|j: int| 0 <= j < k ==> (#[trigger] grown@[j])@.map_values(|i: Option<Vec<u8>>| image_view(i))
                    == start.1[j] + Seq::new(more as nat, |i: int| None::<Seq<u8>>),
                forall|j: int| 0 <= j < k ==> (#[trigger] grown@[j])@.len() == target,
            decreases count - k,
        {
            let mut list = images.remove(0);
            proof {
                assert(list == original[k as int]);
                assert(images@ =~= original.skip(k + 1));
            }
            let ghost list_start = list@;
            while list.len() < target
                invariant
                    list_start.len() <= list@.len() <= target,
                    list@.take(list_start.len() as int) == list_start,
                    forall|i: int| list_start.len() <= i < list@.len() ==> (#[trigger] list@[i]) is None,
                decreases target - list@.len(),
            {
                list.push(None);
                proof { assert(list@.take(list_start.len() as int) =~= list_start); }
            }
            proof {
                assert(list@.map_values(|i: Option<Vec<u8>>| image_view(i)) =~= start.1[k as int] + Seq::new(
                    more as nat,
                    |i: int| None::<Seq<u8>>,
                )) by {
                    assert(list_start.map_values(|i: Option<Vec<u8>>| image_view(i)) == start.1[k as int]);
                    assert forall|i: int| 0 <= i < list_start.len() implies list@[i] == list_start[i] by {
                        assert(list@.take(list_start.len() as int)[i] == list@[i]);
                    }
                }
            }
            grown.push(list);
            k = k + 1;
        }
        self.images = grown;
        self.offered = target;
        proof {
            assert(self@.1 =~= Seq::new(start.1.len(), |j: int| start.1[j] + Seq::new(more as nat, |i: int| None::<Seq<u8>>)));
        }
    }

    /// Keeps the downloaded image of kind `kind` for the `i`-th result offered.
    pub fn set_image(&mut self, kind: usize, i: usize, image: Vec<u8>)
        requires
            old(self).wf(),
            kind < old(self)@.1.len(),
            i < old(self)@.0,
        ensures
            final(self).wf(),
            final(self)@ == (old(self)@.0, old(self)@.1.update(
                kind as int,
                old(self)@.1[kind as int].update(i as int, Some(image@)),
            )),
    {
        let ghost start = self@;
        let ghost image_seq = image@;
        let mut list = self.images.remove(kind);
        proof {
            assert(start.1[kind as int] == list@.map_values(|x: Option<Vec<u8>>| image_view(x)));
        }
        list.set(i, Some(image));
        self.images.insert(kind, list);
        proof {
            assert(list@.map_values(|x: Option<Vec<u8>>| image_view(x)) =~= start.1[kind as int].update(
                i as int,
                Some(image_seq),
            ));
            assert(self@.1 =~= start.1.update(kind as int, start.1[kind as int].update(i as int, Some(image_seq))));
        }
    }

    /// Takes the images of the `i`-th result offered, one per kind, and
    /// offers that result no more.
    pub fn take_choice(&mut self, i: usize) -> (chosen: Vec<Option<Vec<u8>>>)
        requires
            old(self).wf(),
            i < old(self)@.0,
        ensures
            final(self).wf(),
            chosen@.len() == old(self)@.1.len(),
            forall|k: int| 0 <= k < chosen@.len() ==> image_view(#[trigger] chosen@[k]) == old(self)@.1[k][i as int],
            final(self)@.0 == old(self)@.0 - 1,
            final(self)@.1.len() == old(self)@.1.len(),
            forall|k: int| 0 <= k < final(self)@.1.len() ==> (#[trigger] final(self)@.1[k]) == old(self)@.1[k].remove(i as int),
    {
        let ghost start = self@;
        let mut images: Vec<Vec<Option<Vec<u8>>>> = Vec::new();
        std::mem::swap(&mut images, &mut self.images);
        let ghost original = images@;
        let count = images.len();
        let mut chosen: Vec<Option<Vec<u8>>> = Vec::new();
        let mut shrunk: Vec<Vec<Option<Vec<u8>>>> = Vec::new();
        proof {
            assert forall|j: int| 0 <= j < original.len() implies (#[trigger] original[j])@.map_values(
                |x: Option<Vec<u8>>| image_view(x),
            ) == start.1[j] && original[j]@.len() == start.0 by {
                assert(start.1[j] == original[j]@.map_values(|x: Option<Vec<u8>>| image_view(x)));
                assert(start.1[j].len() == start.0);
            }
        }
        let mut k: usize = 0;
        while k < count
            invariant
                k <= count,
                count == original.len(),
                i < start.0,
                images@ == original.skip(k as int),
                chosen@.len() == k,
                shrunk@.len() == k,
                start.1.len() == original.len(),
                forall|j: int| 0 <= j < original.len() ==> (#[trigger] original[j])@.len() == start.0,
                forall|j: int| 0 <= j < original.len() ==> (#[trigger] original[j])@.map_values(
                    |x: Option<Vec<u8>>| image_view(x),
                ) == start.1[j],
                forall|j: int| 0 <= j < k ==> image_view(#[trigger] chosen@[j]) == start.1[j][i as int],
                forall|j: int| 0 <= j < k ==> (#[trigger] shrunk@[j])@.map_values(|x: Option<Vec<u8>>| image_view(x))
                    == start.1[j].remove(i as int),
                forall|j: int| 0 <= j < k ==> (#[trigger] shrunk@[j])@.len() == start.0 - 1,
            decreases count - k,
        {
            let mut list = images.remove(0);
            proof {
                assert(list == original[k as int]);
                assert(images@ =~= original.skip(k + 1));
            }
            let ghost list_start = list@;
            let image = list.remove(i);
            proof {
                assert(image_view(image) == start.1[k as int][i as int]) by {
                    assert(list_start[i as int] == image);
                    assert(list_start.map_values(|x: Option<Vec<u8>>| image_view(x))[i as int] == image_view(image));
                }
                assert(list@.map_values(|x: Option<Vec<u8>>| image_view(x)) =~= start.1[k as int].remove(i as int));
            }
            chosen.push(image);
            shrunk.push(list);
            k = k + 1;
        }
        self.images = shrunk;
        self.offered = self.offered - 1;
        chosen
    }
}

} // verus!
