# hogg

A passive website scanner: a DNS proxy that forwards every query to the
upstream resolvers and hands each newly resolved domain to nuclei, keeping the
findings in a small JSON database that a command line client reads.

- `src/` is the verified library: configuration records, the detection
  database and its operations, the reader of DNS question names, the scan
  cache with its time to live, the upstream forwarding decisions, the nuclei
  command line, the finding comparison, the report lines and the helpers of the
  standalone scanner. Each public function has a contract; the laws are public
  proof functions beside the functions they speak of.
- `app/` is the program around it: sockets, processes, files, the clock,
  desktop notifications and HTTP requests.
- `tests/` runs the library on concrete values.
