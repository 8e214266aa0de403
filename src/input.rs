use vstd::prelude::*;

verus! {

/// What an `Input` holds: the state of each of the sixteen keys, and the key
/// most recently pressed that nobody has taken yet.
pub struct InputView {
    pub keys: Seq<bool>,
    pub latch: Option<u8>,
}

/// Key `k` pressed: it is down and becomes the latched key. Codes above 0xF
/// change nothing.
pub open spec fn press_spec(i: InputView, k: u8) -> InputView {
    if k < 16 {
        InputView { keys: i.keys.update(k as int, true), latch: Some(k) }
    } else {
        i
    }
}

/// Key `k` released: it is up, and no longer latched if it was. Codes above
/// 0xF change nothing.
pub open spec fn release_spec(i: InputView, k: u8) -> InputView {
    if k < 16 {
        InputView {
            keys: i.keys.update(k as int, false),
            latch: if i.latch == Some(k) { None } else { i.latch },
        }
    } else {
        i
    }
}

/// Whether key `k` is down; codes above 0xF never are.
pub open spec fn is_down_spec(i: InputView, k: u8) -> bool {
    k < 16 && i.keys[k as int]
}

/// The sixteen-key keypad and its single-slot latch.
pub struct Input {
    data: [bool; 16],
    pressed_key: Option<u8>,
}

impl View for Input {
    type V = InputView;

    closed spec fn view(&self) -> InputView {
        InputView { keys: self.data@, latch: self.pressed_key }
    }
}

impl Input {
    /// The key state has one entry per key.
    pub closed spec fn wf(&self) -> bool {
        self@.keys.len() == 16
    }

    /// No key down, nothing latched.
    pub fn new() -> (r: Input)
        ensures
            r.wf(),
            r@.keys == Seq::new(16, |_k: int| false),
            r@.latch is None,
    {
        let r = Input { data: [false; 16], pressed_key: None };
        assert(r@.keys =~= Seq::new(16, |_k: int| false));
        r
    }

    /// Whether key `keycode` is down; false for codes above 0xF.
    pub fn is_keydown(&self, keycode: u8) -> (r: bool)
        requires
            self.wf(),
        ensures
            r == is_down_spec(self@, keycode),
    {
        if keycode < 0x10 {
            self.data[keycode as usize]
        } else {
            false
        }
    }

    /// Whether key `key_code`, which must be a valid key, is down.
    pub fn keydown(&self, key_code: u8) -> (r: bool)
        requires
            self.wf(),
            key_code < 0x10,
        ensures
            r == self@.keys[key_code as int],
    {
        self.data[key_code as usize]
    }

    /// Records a key press.
    pub fn set_keydown(&mut self, keycode: u8)
        requires
            old(self).wf(),
        ensures
            final(self).wf(),
            final(self)@ == press_spec(old(self)@, keycode),
    {
        if keycode < 0x10 {
            self.data[keycode as usize] = true;
            self.pressed_key = Some(keycode);
        }
    }

    /// Records a key release.
    pub fn set_keyup(&mut self, keycode: u8)
        requires
            old(self).wf(),
        ensures
            final(self).wf(),
            final(self)@ == release_spec(old(self)@, keycode),
    {
        if keycode < 0x10 {
            self.data[keycode as usize] = false;
            if self.pressed_key == Some(keycode) {
                self.pressed_key = None;
            }
        }
    }

    /// Takes the latched key, leaving the latch empty.
    pub fn get_key(&mut self) -> (r: Option<u8>)
        requires
            old(self).wf(),
        ensures
            final(self).wf(),
            r == old(self)@.latch,
            final(self)@.keys == old(self)@.keys,
            final(self)@.latch is None,
    {
        let r = self.pressed_key;
        self.pressed_key = None;
        r
    }
}

} // verus!
