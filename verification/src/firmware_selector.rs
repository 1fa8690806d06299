//! The choice of a firmware variant as a state machine: pick a variant, then an action on it
//! (flash it, read its documentation, or go back), until a variant is chosen or the choice is
//! cancelled. The prompts themselves are the caller's: each step takes the answer.
use vstd::prelude::*;

use crate::metadata::firmware_download::{FirmwareDownload, FirmwareDownloadView};

verus! {

/// Where the choice stands.
#[derive(Debug, Clone, Copy, PartialEq, Eq, Structural)]
pub enum State {
    /// A variant is to be picked.
    PickFirmware,
    /// An action is to be picked for the variant at this position of the names.
    PickAction(usize),
    /// The documentation is to be shown: the position of the name, and of the variant.
    ShowDocs(usize, usize),
    /// The variant at this position is to be flashed.
    FlashFirmware(usize),
    /// The choice was cancelled.
    Cancel,
}

/// The choice of a firmware variant of a release.
pub struct FirmwareMultichoice {
    state: State,
    release: String,
    variants: Vec<FirmwareDownload>,
    friendly_names: Vec<String>,
}

/// Mathematical model of a [`FirmwareMultichoice`].
pub struct FirmwareMultichoiceView {
    pub state: State,
    pub release: Seq<char>,
    pub variants: Seq<FirmwareDownloadView>,
    pub friendly_names: Seq<Seq<char>>,
}

/// The models of some downloads.
pub open spec fn downloads_view(v: Seq<FirmwareDownload>) -> Seq<FirmwareDownloadView> {
    v.map_values(|d: FirmwareDownload| d@)
}

/// The names for people of some downloads.
pub open spec fn names_of(v: Seq<FirmwareDownloadView>) -> Seq<Seq<char>> {
    v.map_values(|d: FirmwareDownloadView| d.friendly_name)
}

/// Whether every position a state names is a position of the variants.
pub open spec fn state_in_range(s: State, n: nat) -> bool {
    match s {
        State::PickAction(i) => i < n,
        State::ShowDocs(i, j) => i < n && j < n,
        State::FlashFirmware(j) => j < n,
        _ => true,
    }
}

/// The first variant whose name for people is `name`.
pub open spec fn is_first_named(variants: Seq<FirmwareDownloadView>, name: Seq<char>, j: int) -> bool {
    &&& 0 <= j < variants.len()
    &&& variants[j].friendly_name == name
    &&& forall|k: int| 0 <= k < j ==> variants[k].friendly_name != name
}

/// The state after picking a variant: its actions, or cancelling where nothing was picked.
pub open spec fn after_firmware_choice(selection: Option<usize>) -> State {
    match selection {
        Some(i) => State::PickAction(i),
        None => State::Cancel,
    }
}

/// The state after picking an action for the name at `name_index`, whose first variant is at
/// `variant_index`: flash it, show its documentation, go back to the variants, or cancel;
/// another answer is refused.
pub open spec fn after_action_choice(name_index: usize, variant_index: usize, selection: Option<usize>) -> Option<
    State,
> {
    match selection {
        Some(0) => Some(State::FlashFirmware(variant_index)),
        Some(1) => Some(State::ShowDocs(name_index, variant_index)),
        Some(2) => Some(State::PickFirmware),
        Some(_) => None,
        None => Some(State::Cancel),
    }
}

impl View for FirmwareMultichoice {
    type V = FirmwareMultichoiceView;

    closed spec fn view(&self) -> FirmwareMultichoiceView {
        FirmwareMultichoiceView {
            state: self.state,
            release: self.release@,
            variants: downloads_view(self.variants@),
            friendly_names: crate::text::strings_view(self.friendly_names@),
        }
    }
}

impl FirmwareMultichoice {
    /// The names are those of the variants, and the state's positions are in range.
    #[verifier::type_invariant]
    spec fn well_formed(self) -> bool {
        &&& crate::text::strings_view(self.friendly_names@) == names_of(downloads_view(self.variants@))
        &&& state_in_range(self.state, self.variants@.len())
    }

    /// A new choice among the variants of a release, starting at picking a variant.
    pub fn new(release: &str, variants: Vec<FirmwareDownload>) -> (r: Self)
        ensures
            r@.state == State::PickFirmware,
            r@.release == release@,
            r@.variants == downloads_view(variants@),
            r@.friendly_names == names_of(downloads_view(variants@)),
    {
        let mut friendly_names: Vec<String> = Vec::new();
        let mut k: usize = 0;
        while k < variants.len()
            invariant
                k <= variants@.len(),
                crate::text::strings_view(friendly_names@) == names_of(downloads_view(variants@)).subrange(0, k as int),
            decreases variants@.len() - k,
        {
            let name = variants[k].friendly_name().to_owned();
            let ghost old_names = friendly_names@;
            let ghost nv = name@;
            assert(nv == names_of(downloads_view(variants@))[k as int]);
            friendly_names.push(name);
            assert(crate::text::strings_view(friendly_names@) =~= crate::text::strings_view(old_names).push(nv));
            assert(crate::text::strings_view(friendly_names@) =~= names_of(downloads_view(variants@)).subrange(
                0,
                k + 1,
            ));
            k = k + 1;
        }
        assert(names_of(downloads_view(variants@)).subrange(0, variants@.len() as int) =~= names_of(
            downloads_view(variants@),
        ));
        FirmwareMultichoice { state: State::PickFirmware, release: release.to_owned(), variants, friendly_names }
    }

    /// Where the choice stands.
    pub fn state(&self) -> (r: State)
        ensures
            r == self@.state,
    {
        self.state
    }

    /// The release the variants belong to.
    pub fn release(&self) -> (r: &str)
        ensures
            r@ == self@.release,
    {
        self.release.as_str()
    }

    /// The names of the variants for people, to pick from.
    pub fn friendly_names(&self) -> (r: &[String])
        ensures
            crate::text::strings_view(r@) == self@.friendly_names,
    {
        self.friendly_names.as_slice()
    }

    /// Returns true if the FSM is finished and there are no further state transitions to go
    pub fn complete(&self) -> (r: bool)
        ensures
            r == (self@.state is FlashFirmware || self@.state is Cancel),
    {
        match self.state {
            State::FlashFirmware(_) | State::Cancel => true,
            _ => false,
        }
    }

    /// Convert the FSM state into a firmware download selection
    pub fn selection(&self) -> (r: Option<&FirmwareDownload>)
        ensures
            match self@.state {
                State::FlashFirmware(j) => r matches Some(d) && j < self@.variants.len() && d@ == self@.variants[j as int],
                _ => r is None,
            },
    {
        proof {
            use_type_invariant(self);
        }
        match self.state {
            State::FlashFirmware(index) => Some(&self.variants[index]),
            _ => None,
        }
    }

    /// The variant whose documentation is to be shown, in that state.
    pub fn documentation_variant(&self) -> (r: Option<&FirmwareDownload>)
        ensures
            match self@.state {
                State::ShowDocs(_, j) => r matches Some(d) && j < self@.variants.len() && d@ == self@.variants[j as int],
                _ => r is None,
            },
    {
        proof {
            use_type_invariant(self);
        }
        match self.state {
            State::ShowDocs(_, index) => Some(&self.variants[index]),
            _ => None,
        }
    }

    /// Takes the answer to "which variant?": `None` cancels.
    pub fn choose_firmware(&mut self, selection: Option<usize>)
        requires
            old(self)@.state == State::PickFirmware,
            selection matches Some(i) ==> i < old(self)@.variants.len(),
        ensures
            final(self)@.state == after_firmware_choice(selection),
            final(self)@.release == old(self)@.release,
            final(self)@.variants == old(self)@.variants,
            final(self)@.friendly_names == old(self)@.friendly_names,
    {
        proof {
            use_type_invariant(&*self);
        }
        self.state = match selection {
            Some(index) => State::PickAction(index),
            None => State::Cancel,
        };
    }

    /// The first variant with the same name for people as the name at `name_index`.
    fn variant_for_name(&self, name_index: usize) -> (r: usize)
        requires
            name_index < self@.variants.len(),
        ensures
            is_first_named(self@.variants, self@.friendly_names[name_index as int], r as int),
    {
        proof {
            use_type_invariant(self);
        }
        let ghost vs = self@.variants;
        assert(crate::text::strings_view(self.friendly_names@).len() == self.friendly_names@.len());
        assert(names_of(vs).len() == vs.len());
        assert(vs.len() == self.variants@.len());
        assert(crate::text::strings_view(self.friendly_names@)[name_index as int] == self.friendly_names@[name_index as int]@);
        assert(names_of(vs)[name_index as int] == vs[name_index as int].friendly_name);
        let name = self.friendly_names[name_index].as_str();
        let target = crate::text::chars_of(name);
        assert(self@.friendly_names[name_index as int] == name@);
        assert(vs[name_index as int].friendly_name == name@);
        assert(self@.friendly_names.len() == vs.len());
        let mut j: usize = 0;
        while j < self.variants.len()
            invariant
                j <= name_index,
                name_index < self.variants@.len(),
                vs == downloads_view(self.variants@),
                vs.len() == self.variants@.len(),
                vs[name_index as int].friendly_name == target@,
                self@.variants == vs,
                self@.friendly_names.len() == vs.len(),
                self@.friendly_names[name_index as int] == target@,
                forall|k: int| 0 <= k < j ==> vs[k].friendly_name != target@,
            decreases name_index - j,
        {
            let candidate = crate::text::chars_of(self.variants[j].friendly_name());
            assert(vs[j as int] == self.variants@[j as int]@);
            if crate::text::chars_eq(candidate.as_slice(), target.as_slice()) {
                return j;
            }
            assert(j != name_index);
            j = j + 1;
        }
        j
    }

    /// Takes the answer to "which action?" for the variant picked: 0 flashes it, 1 shows its
    /// documentation, 2 goes back to the variants, `None` cancels; any other answer is refused
    /// and changes nothing.
    pub fn choose_action(&mut self, selection: Option<usize>) -> (r: Result<(), String>)
        requires
            old(self)@.state is PickAction,
        ensures
            final(self)@.release == old(self)@.release,
            final(self)@.variants == old(self)@.variants,
            final(self)@.friendly_names == old(self)@.friendly_names,
            ({
                let n = old(self)@.state->PickAction_0;
                exists|j: int|
                    is_first_named(old(self)@.variants, old(self)@.friendly_names[n as int], j) && match after_action_choice(
                        n,
                        j as usize,
                        selection,
                    ) {
                        Some(s) => r is Ok && final(self)@.state == s,
                        None => r == Err::<(), String>(r->Err_0) && r->Err_0@ == "Impossible selection for action"@
                            && final(self)@.state == old(self)@.state,
                    }
            }),
    {
        proof {
            use_type_invariant(&*self);
        }
        let name_index = match self.state {
            State::PickAction(i) => i,
            _ => 0,
        };
        let variant_index = self.variant_for_name(name_index);
        let next = match selection {
            Some(0) => State::FlashFirmware(variant_index),
            Some(1) => State::ShowDocs(name_index, variant_index),
            Some(2) => State::PickFirmware,
            Some(_) => {
                return Err("Impossible selection for action".to_owned());
            },
            None => State::Cancel,
        };
        self.state = next;
        Ok(())
    }

    /// Back to the variant's actions once its documentation was shown.
    pub fn documentation_shown(&mut self)
        requires
            old(self)@.state is ShowDocs,
        ensures
            final(self)@.state == State::PickAction(old(self)@.state->ShowDocs_0),
            final(self)@.release == old(self)@.release,
            final(self)@.variants == old(self)@.variants,
            final(self)@.friendly_names == old(self)@.friendly_names,
    {
        proof {
            use_type_invariant(&*self);
        }
        self.state = match self.state {
            State::ShowDocs(name_index, _) => State::PickAction(name_index),
            other => other,
        };
    }
}

} // verus!
