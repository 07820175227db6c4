# moix

The logic of a small family of programs, verified with Verus:

- a blog server (document search, sitemap, search redirect, stored files,
  the list of code repositories on the front page);
- a text hashing service (BLAKE3, lowercase hexadecimal);
- an edge worker (home page, sitemap, not-found pages);
- a speech app (which voices are offered and spoken with);
- a streaming chat reader and a talking avatar.

`src/` holds the library with its contracts and proofs, one module per
program plus `text` for the string operations they share. `app/` holds the
blog server and the chat and avatar terminal screens that perform the input
and output around it; the hashing service, the edge worker and the speech
app are present as library logic only, and the avatar screen follows keys
(`on_samples` takes a buffer of microphone samples, but no audio input
feeds it).
