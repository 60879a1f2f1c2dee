# bottle

The verified core of Bottle, a server that follows feeds of illustration communities
(Twitter, Pixiv, a gallery site), keeps a local library of works and images, and runs
background jobs that update feeds and download images.

The library (`src/`) holds the logic, each function with a contract proved by Verus:

- `decimal`, `text`, `paths`: decimal text of integers and its parsing, text search,
  and file paths with `/` as the separator.
- `feed`: what every community shares: metadata and schemes, views, the posts a
  fetched page adds to a feed and the sort indices they get, and the listing of posts
  grouped by artist (artists ranked by post count, media kept for the works shown).
- `library`: works, images, albums and folders, their views, positions, the order of
  works by post, and the download tasks of images not yet on disk.
- `codec`: choosing the format to decode downloaded bytes in, decoding, scaling, and
  the record and thumbnails a downloaded file leaves.
- `download`: paths of downloaded images and their thumbnails, completeness of a
  download, file kinds.
- `jobs`: the states of the background jobs, what the client is shown of them, and
  the decisions of the gallery download job (preview pages to fetch, tasks to add).
- `panda`, `pixiv`, `twitter`: each community's feed parameters, fetch offsets and
  cursors, and what saving a fetched page does.
- `server`: paging parameters, retries, and the HTTP status of an error.

`app/main.rs` runs an image download job: it downloads a list of images with their
thumbnails, a few at a time, retrying failed downloads, and reports the job's state
as it goes. The network, the disk and the JPEG encoder writing thumbnail files are
used there; decoding, scaling, the job's counting and the decisions are the
library's.
