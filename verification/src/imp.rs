mod owned;
mod protected;
mod shared;
mod unlinked;
mod unprotected;
