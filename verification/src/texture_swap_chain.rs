//! The swap chain of a texture id: a short queue of the frames that were
//! committed for it, from which the renderer takes the newest.

use vstd::prelude::*;

verus! {

/// How many frames a swap chain holds.
pub const SWAP_CHAIN_LENGTH: usize = 2;

/// The frames committed for one texture id, oldest first.
pub struct TextureSwapChain<T> {
    pub textures: Vec<T>,
}

impl<T> View for TextureSwapChain<T> {
    type V = Seq<T>;

    open spec fn view(&self) -> Seq<T> {
        self.textures@
    }
}

/// What stays of a chain when a frame is committed: the oldest frames go
/// until there is room for one more.
pub open spec fn chain_tail<T>(frames: Seq<T>) -> Seq<T> {
    if frames.len() >= SWAP_CHAIN_LENGTH {
        frames.skip(frames.len() - SWAP_CHAIN_LENGTH + 1)
    } else {
        frames
    }
}

impl<T> TextureSwapChain<T> {
    /// A chain without frames.
    pub fn new() -> (chain: TextureSwapChain<T>)
        ensures
            chain@ == Seq::<T>::empty(),
    {
        TextureSwapChain { textures: Vec::new() }
    }

    /// Commits a frame: it becomes the newest, and the oldest is dropped
    /// where the chain was full.
    pub fn commit(&mut self, texture: T)
        ensures
            final(self)@ == chain_tail(old(self)@).push(texture),
            final(self)@.len() <= SWAP_CHAIN_LENGTH,
            final(self)@.last() == texture,
    {
        let ghost before = self.textures@;
        while self.textures.len() >= SWAP_CHAIN_LENGTH
            invariant
                self.textures.len() <= before.len(),
                before.len() < SWAP_CHAIN_LENGTH ==> self.textures.len() == before.len(),
                before.len() >= SWAP_CHAIN_LENGTH ==> self.textures.len() + 1
                    >= SWAP_CHAIN_LENGTH,
                self.textures@ == before.skip(before.len() - self.textures.len()),
            decreases self.textures.len(),
        {
            self.textures.remove(0);
        }
        assert(self.textures@ =~= chain_tail(before));
        self.textures.push(texture);
    }

    /// The newest frame, which is the one to render.
    pub fn latest(&self) -> (frame: Option<&T>)
        ensures
            match frame {
                Some(texture) => self@.len() > 0 && *texture == self@.last(),
                None => self@.len() == 0,
            },
    {
        if self.textures.len() > 0 {
            Some(&self.textures[self.textures.len() - 1])
        } else {
            None
        }
    }

    /// The number of frames in the chain.
    pub fn len(&self) -> (n: usize)
        ensures
            n == self@.len(),
    {
        self.textures.len()
    }
}

} // verus!
