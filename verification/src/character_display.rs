//! The character display: an append-only bounded text buffer, fed one glyph
//! at a time, with a back buffer that pushes modify and a committed front
//! buffer that an explicit commit copies the back buffer into.

use vstd::prelude::*;

verus! {

/// The display's abstract state: its capacity, the back buffer being
/// written, and the committed text.
#[verifier::ext_equal]
pub ghost struct CharacterDisplayView {
    pub capacity: nat,
    pub buffer: Seq<char>,
    pub data: Seq<char>,
    pub updated: bool,
}

impl CharacterDisplayView {
    /// Both buffers fit the capacity.
    pub open spec fn wf(self) -> bool {
        &&& self.buffer.len() <= self.capacity
        &&& self.data.len() <= self.capacity
    }

    /// Whether a push succeeds: only when the back buffer has room and a
    /// glyph was actually supplied.
    pub open spec fn push_result(self, character: Option<char>) -> bool {
        self.buffer.len() != self.capacity && character is Some
    }

    /// The state after a push: the glyph is appended exactly when the push
    /// succeeds; a full buffer or a missing glyph changes nothing.
    pub open spec fn push_model(self, character: Option<char>) -> CharacterDisplayView {
        if self.buffer.len() == self.capacity {
            self
        } else {
            match character {
                Some(c) => CharacterDisplayView { buffer: self.buffer.push(c), ..self },
                None => self,
            }
        }
    }

    /// The state after a commit: the back buffer becomes the committed text.
    pub open spec fn commit_model(self) -> CharacterDisplayView {
        CharacterDisplayView { data: self.buffer, updated: true, ..self }
    }

    /// The state after pushing every character of `characters` in order,
    /// each supplied as a present glyph.
    pub open spec fn push_all(self, characters: Seq<char>) -> CharacterDisplayView
        decreases characters.len(),
    {
        if characters.len() == 0 {
            self
        } else {
            self.push_all(characters.drop_last()).push_model(Some(characters.last()))
        }
    }
}

pub struct CharacterDisplay {
    capacity: usize,

    buffer: Vec<char>,

    data: Vec<char>,
    data_updated: bool,
}

impl View for CharacterDisplay {
    type V = CharacterDisplayView;

    closed spec fn view(&self) -> CharacterDisplayView {
        CharacterDisplayView {
            capacity: self.capacity as nat,
            buffer: self.buffer@,
            data: self.data@,
            updated: self.data_updated,
        }
    }
}

impl CharacterDisplay {
    pub fn new(capacity: usize) -> (result: Self)
        ensures
            result@ == (CharacterDisplayView {
                capacity: capacity as nat,
                buffer: Seq::<char>::empty(),
                data: Seq::<char>::empty(),
                updated: true,
            }),
            result@.wf(),
    {
        Self {
            capacity,

            buffer: Vec::with_capacity(capacity),

            data: Vec::with_capacity(capacity),
            data_updated: true,
        }
    }

    pub fn capacity(&self) -> (result: usize)
        ensures
            result == self@.capacity,
    {
        self.capacity
    }

    /// Appends one glyph to the back buffer. Fails, changing nothing, when
    /// the buffer is already at capacity or when no glyph is supplied.
    pub fn push(&mut self, character: Option<char>) -> (result: bool)
        ensures
            result == old(self)@.push_result(character),
            final(self)@ == old(self)@.push_model(character),
    {
        if self.buffer.len() == self.capacity {
            return false;
        }

        match character {
            Some(character) => {
                self.buffer.push(character);
                true
            },
            None => false,
        }
    }

    /// The committed text.
    pub fn data(&self) -> (result: &Vec<char>)
        ensures
            result@ == self@.data,
    {
        &self.data
    }

    /// Commits the back buffer: copies it into the externally visible text.
    pub fn push_buffer(&mut self)
        ensures
            final(self)@ == old(self)@.commit_model(),
    {
        let mut copied: Vec<char> = Vec::with_capacity(self.buffer.len());
        let length = self.buffer.len();
        let mut i: usize = 0;
        while i < length
            invariant
                i <= length,
                self.buffer@.len() == length,
                copied@ == self.buffer@.take(i as int),
            decreases length - i,
        {
            let character = self.buffer[i];
            copied.push(character);
            proof {
                assert(copied@ =~= self.buffer@.take(i + 1));
            }
            i = i + 1;
        }
        proof {
            assert(copied@ =~= self.buffer@);
        }
        self.data = copied;
        self.data_updated = true;
    }

    /// Resets the back buffer only.
    pub fn clear_buffer(&mut self)
        ensures
            final(self)@ == (CharacterDisplayView { buffer: Seq::<char>::empty(), ..old(self)@ }),
    {
        self.buffer.clear();
    }

    /// Resets both buffers.
    pub fn clear(&mut self)
        ensures
            final(self)@ == (CharacterDisplayView {
                buffer: Seq::<char>::empty(),
                data: Seq::<char>::empty(),
                updated: true,
                ..old(self)@
            }),
    {
        self.buffer.clear();

        self.data.clear();
        self.data_updated = true;
    }

    pub fn data_updated(&self) -> (result: bool)
        ensures
            result == self@.updated,
    {
        self.data_updated
    }

    pub fn disable_data_updated(&mut self)
        ensures
            final(self)@ == (CharacterDisplayView { updated: false, ..old(self)@ }),
    {
        self.data_updated = false;
    }
}

/// Pushing characters that fit entirely within the remaining room appends
/// them all to the back buffer, leaving the rest of the state alone.
pub proof fn lemma_push_all_fits(v: CharacterDisplayView, characters: Seq<char>)
    requires
        v.wf(),
        v.buffer.len() + characters.len() <= v.capacity,
    ensures
        v.push_all(characters) == (CharacterDisplayView {
            buffer: v.buffer + characters,
            ..v
        }),
    decreases characters.len(),
{
    if characters.len() == 0 {
        assert(v.buffer + characters =~= v.buffer);
        assert(v.push_all(characters) =~= (CharacterDisplayView {
            buffer: v.buffer + characters,
            ..v
        }));
    } else {
        lemma_push_all_fits(v, characters.drop_last());
        assert((v.buffer + characters.drop_last()).push(characters.last()) =~= v.buffer
            + characters);
        assert(v.push_all(characters) =~= (CharacterDisplayView {
            buffer: v.buffer + characters,
            ..v
        }));
    }
}

/// Overflow: starting from an empty back buffer, pushing capacity + 1 glyphs
/// fills the buffer to exactly the capacity, the last push reports failure,
/// and a commit then leaves the committed text at exactly the capacity.
pub proof fn lemma_character_overflow(v: CharacterDisplayView, characters: Seq<char>)
    requires
        v.wf(),
        v.buffer.len() == 0,
        characters.len() == v.capacity + 1,
    ensures
        v.push_all(characters).buffer == characters.take(v.capacity as int),
        v.push_all(characters.drop_last()).push_result(Some(characters.last())) == false,
        v.push_all(characters).commit_model().data.len() == v.capacity,
{
    lemma_push_all_fits(v, characters.drop_last());
    assert(v.buffer + characters.drop_last() =~= characters.take(v.capacity as int));
}

} // verus!
