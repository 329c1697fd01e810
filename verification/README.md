# transcode-rs

A tool that automates the transcoding and general maintenance of a video library.

`src/` is a library, verified with Verus, that makes the decisions of the tool: which files are
videos, what becomes of each file, with which arguments the encoder runs, when a transcode is small
enough, and where files end up. Work on the file system and on running encoders is described by
state machines: each asks for one thing at a time and is told what came of it.

`app/` carries those decisions out: it reads the command line, walks the directories, runs `ffprobe`
and `ffmpeg`, and copies and removes files. It also computes what is floating point: the size that
the compression goal leaves of a video, which the library takes as a number of bytes, and the
percentages that are shown.

`tests/` runs the library on concrete values.
