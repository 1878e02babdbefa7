use vstd::prelude::*;

verus! {

/// Which button of a grid of choices (bands, modes or filters) is the chosen one, and
/// which buttons are drawn as chosen.
pub struct ButtonGrid {
    highlighted: Vec<bool>,
    active: Option<usize>,
}

/// The styles after button `index` is chosen where `previous` was: the previous one
/// plain, the new one highlighted.
pub open spec fn chosen_styles(styles: Seq<bool>, previous: Option<usize>, index: usize) -> Seq<bool> {
    let cleared = match previous {
        Some(p) => styles.update(p as int, false),
        None => styles,
    };
    cleared.update(index as int, true)
}

impl ButtonGrid {
    /// For each button, whether it is drawn as the chosen one.
    pub closed spec fn styles(&self) -> Seq<bool> {
        self.highlighted@
    }

    /// The chosen button, if one was chosen.
    pub closed spec fn active(&self) -> Option<usize> {
        self.active
    }

    /// Exactly the chosen button is drawn as chosen.
    pub open spec fn shows_active(&self) -> bool {
        forall|i: usize|
            i < self.styles().len() ==> (#[trigger] self.styles()[i as int] <==> self.active()
                == Some(i))
    }

    /// A grid of `count` buttons, none chosen.
    pub fn new(count: usize) -> (g: ButtonGrid)
        ensures
            g.styles().len() == count,
            forall|i: int| 0 <= i < count ==> !(#[trigger] g.styles()[i]),
            g.active() is None,
            g.shows_active(),
    {
        let mut highlighted: Vec<bool> = Vec::new();
        let mut i: usize = 0;
        while i < count
            invariant
                i <= count,
                highlighted@.len() == i,
                forall|j: int| 0 <= j < i ==> !(#[trigger] highlighted@[j]),
            decreases count - i,
        {
            highlighted.push(false);
            i = i + 1;
        }
        ButtonGrid { highlighted, active: None }
    }

    /// The number of buttons.
    pub fn len(&self) -> (n: usize)
        ensures
            n == self.styles().len(),
    {
        self.highlighted.len()
    }

    /// Whether button `index` is drawn as the chosen one.
    pub fn is_highlighted(&self, index: usize) -> (h: bool)
        requires
            index < self.styles().len(),
        ensures
            h == self.styles()[index as int],
    {
        self.highlighted[index]
    }

    /// Takes `initial` as the chosen button and draws it so, when the grid is set up.
    pub fn set_callback(&mut self, initial: usize)
        ensures
            final(self).active() == Some(initial),
            final(self).styles() == (if initial < old(self).styles().len() {
                old(self).styles().update(initial as int, true)
            } else {
                old(self).styles()
            }),
            old(self).active() is None && old(self).shows_active() && initial < old(
                self,
            ).styles().len() ==> final(self).shows_active(),
    {
        self.active = Some(initial);
        if initial < self.highlighted.len() {
            self.highlighted.set(initial, true);
        }
    }

    /// A click on button `index`: the button chosen before is drawn plain, this one as
    /// chosen, and it becomes the chosen one. Gives the one chosen before.
    pub fn click(&mut self, index: usize) -> (previous: Option<usize>)
        requires
            index < old(self).styles().len(),
            old(self).active() matches Some(p) ==> p < old(self).styles().len(),
        ensures
            previous == old(self).active(),
            final(self).active() == Some(index),
            final(self).styles() == chosen_styles(old(self).styles(), old(self).active(), index),
            old(self).shows_active() ==> final(self).shows_active(),
    {
        let previous = self.active;
        if let Some(p) = previous {
            self.highlighted.set(p, false);
        }
        self.highlighted.set(index, true);
        self.active = Some(index);
        proof {
            if old(self).shows_active() {
                assert forall|i: usize| i < self.styles().len() implies (#[trigger] self.styles()[i as int]
                    <==> self.active() == Some(i)) by {
                    if i != index {
                        assert(old(self).styles()[i as int] <==> old(self).active() == Some(i));
                    }
                }
            }
        }
        previous
    }

    /// The chosen button, if any.
    pub fn get_active_index(&self) -> (a: Option<usize>)
        ensures
            a == self.active(),
    {
        self.active
    }

    /// Makes button `index` the chosen one in place of the one chosen before, which it
    /// gives back.
    pub fn set_active_index(&mut self, index: usize) -> (previous: usize)
        requires
            old(self).active() is Some,
            old(self).active().unwrap() < old(self).styles().len(),
            index < old(self).styles().len(),
        ensures
            Some(previous) == old(self).active(),
            final(self).active() == Some(index),
            final(self).styles() == chosen_styles(old(self).styles(), old(self).active(), index),
            old(self).shows_active() ==> final(self).shows_active(),
    {
        let previous = self.active.unwrap();
        self.highlighted.set(previous, false);
        self.active = Some(index);
        self.highlighted.set(index, true);
        proof {
            if old(self).shows_active() {
                assert forall|i: usize| i < self.styles().len() implies (#[trigger] self.styles()[i as int]
                    <==> self.active() == Some(i)) by {
                    if i != index {
                        assert(old(self).styles()[i as int] <==> old(self).active() == Some(i));
                    }
                }
            }
        }
        previous
    }
}

} // verus!
